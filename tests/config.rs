use cargo_ipa::context::Ctx;

const BASIC: &str = "[package]\nname = \"demo\"\nversion = \"1.0\"\n";

#[test]
fn resolves_identity_and_paths() {
    let ctx = Ctx::new(&None, "/work/demo", BASIC).unwrap();
    assert_eq!(ctx.project_id, "demo");
    assert_eq!(ctx.project_version, "1.0");
    assert_eq!(ctx.project_name, "demo");
    assert_eq!(ctx.root_dir, "/work/demo");
    assert_eq!(ctx.cargo_toml, "/work/demo/Cargo.toml");
    assert_eq!(ctx.target_dir, "/work/demo/target");
    assert_eq!(ctx.cargo_ipa_dir, "/work/demo/target/cargo-ipa");
    assert!(ctx.cfg.is_none());
    assert!(!ctx.force_cargo_recompile);
    assert!(!ctx.ignored_config);
}

#[test]
fn name_argument_wins() {
    let text = "[package]\nname = \"demo\"\nversion = \"1.0\"\n[package.metadata.cargo-ipa]\nname = \"Configured\"\n";
    let ctx = Ctx::new(&Some("Given".to_string()), "/p", text).unwrap();
    assert_eq!(ctx.project_name, "Given");
}

#[test]
fn configured_name_wins_over_package_name() {
    let text = "[package]\nname = \"demo\"\nversion = \"1.0\"\n[package.metadata.cargo-ipa]\nname = \"Configured\"\n";
    let ctx = Ctx::new(&None, "/p", text).unwrap();
    assert_eq!(ctx.project_name, "Configured");
    assert_eq!(ctx.cfg.unwrap().name, Some("Configured".to_string()));
}

#[test]
fn missing_package_name_is_an_error() {
    let r = Ctx::new(&None, "/p", "[package]\nversion = \"1.0\"\n");
    assert_eq!(r.unwrap_err(), "Invalid Cargo.toml detected! Failed to get package name.");
}

#[test]
fn missing_package_table_is_an_error() {
    let r = Ctx::new(&None, "/p", "[workspace]\nmembers = []\n");
    assert_eq!(r.unwrap_err(), "Invalid Cargo.toml detected! Failed to get package name.");
}

#[test]
fn non_string_version_is_an_error() {
    let r = Ctx::new(&None, "/p", "[package]\nname = \"demo\"\nversion = 3\n");
    assert_eq!(r.unwrap_err(), "Invalid Cargo.toml detected! Failed to get package version.");
}

#[test]
fn invalid_toml_is_a_parse_error() {
    let r = Ctx::new(&None, "/p", "[package\nname = ");
    let e = r.unwrap_err();
    assert!(e.starts_with("Failed to parse Cargo.toml: "));
    assert!(e.len() > "Failed to parse Cargo.toml: ".len());
}

#[test]
fn malformed_tool_section_is_ignored() {
    let text = "[package]\nname = \"demo\"\nversion = \"1.0\"\nmetadata = { cargo-ipa = 5 }\n";
    let ctx = Ctx::new(&None, "/p", text).unwrap();
    assert!(ctx.cfg.is_none());
    assert!(ctx.ignored_config);
    assert_eq!(ctx.project_name, "demo");
}

#[test]
fn reads_bridge_settings_and_properties() {
    let text = "[package]\nname = \"demo\"\nversion = \"1.0\"\n[package.metadata.cargo-ipa]\nswift-bridges = [\"src/lib.rs\", \"src/ffi.rs\"]\nswift-library = \"swift/MyLib\"\n[package.metadata.cargo-ipa.properties]\nCFBundleName = \"Other\"\nLSRequiresIPhoneOS = true\nCount = 7\n";
    let ctx = Ctx::new(&None, "/p", text).unwrap();
    let cfg = ctx.cfg.unwrap();
    assert_eq!(cfg.swift_bridges, Some(vec!["src/lib.rs".to_string(), "src/ffi.rs".to_string()]));
    assert_eq!(cfg.swift_library, Some("swift/MyLib".to_string()));
    let mut props = cfg.properties.clone();
    props.sort();
    assert_eq!(
        props,
        vec![
            ("CFBundleName".to_string(), "Other".to_string()),
            ("Count".to_string(), "7".to_string()),
            ("LSRequiresIPhoneOS".to_string(), "true".to_string()),
        ]
    );
}

#[test]
fn non_string_bridge_entry_is_an_error() {
    let text = "[package]\nname = \"demo\"\nversion = \"1.0\"\n[package.metadata.cargo-ipa]\nswift-bridges = [\"src/lib.rs\", 4]\n";
    let r = Ctx::new(&None, "/p", text);
    assert_eq!(r.unwrap_err(), "Invalid `swift-bridges` setting: every entry must be a path string.");
}

#[test]
fn from_parsed_manifest() {
    let doc: toml::Table = "[package]\nname = \"app\"\nversion = \"0.3.0\"\n".parse().unwrap();
    let ctx = Ctx::from_manifest(&doc, &None, "/r").unwrap();
    assert_eq!(ctx.project_id, "app");
    assert_eq!(ctx.project_version, "0.3.0");
    assert_eq!(ctx.project_name, "app");
    assert_eq!(ctx, Ctx::new(&None, "/r", "[package]\nname = \"app\"\nversion = \"0.3.0\"\n").unwrap());
}

#[test]
fn from_parsed_manifest_without_version() {
    let doc: toml::Table = "[package]\nname = \"app\"\n".parse().unwrap();
    assert_eq!(
        Ctx::from_manifest(&doc, &None, "/r").unwrap_err(),
        "Invalid Cargo.toml detected! Failed to get package version."
    );
}
