use cargo_ipa::context::{Ctx, ToolConfig};
use cargo_ipa::plist::{gen_info_plist, info_plist, InfoPlist, PLIST_CLOSING, PLIST_OPENING};

fn demo_ctx(properties: Vec<(String, String)>) -> Ctx {
    let mut ctx = Ctx::new(&Some("Demo".to_string()), "/p", "[package]\nname = \"demo\"\nversion = \"1.0\"\n").unwrap();
    ctx.cfg = Some(ToolConfig { name: None, swift_bridges: None, swift_library: None, properties });
    ctx
}

fn lookup(map: &InfoPlist, key: &str) -> Option<String> {
    map.entries.iter().find(|(k, _)| k == key).map(|(_, v)| v.clone())
}

#[test]
fn plist_text_is_opening_pairs_closing() {
    let mut map = InfoPlist::new();
    map.insert("CFBundleName".to_string(), "Demo".to_string());
    let text = gen_info_plist(&map);
    assert_eq!(text, format!("{PLIST_OPENING}<key>CFBundleName</key>\n<string>Demo</string>\n{PLIST_CLOSING}"));
}

#[test]
fn empty_plist_is_opening_and_closing() {
    let map = InfoPlist::new();
    assert_eq!(gen_info_plist(&map), format!("{PLIST_OPENING}{PLIST_CLOSING}"));
}

#[test]
fn values_are_not_escaped() {
    let mut map = InfoPlist::new();
    map.insert("Key".to_string(), "a<b&c".to_string());
    assert!(gen_info_plist(&map).contains("<string>a<b&c</string>\n"));
}

#[test]
fn insert_replaces_earlier_value() {
    let mut map = InfoPlist::new();
    map.insert("A".to_string(), "1".to_string());
    map.insert("B".to_string(), "2".to_string());
    map.insert("A".to_string(), "3".to_string());
    assert_eq!(map.entries.len(), 2);
    assert_eq!(lookup(&map, "A"), Some("3".to_string()));
    assert_eq!(lookup(&map, "B"), Some("2".to_string()));
}

#[test]
fn mandatory_keys_are_computed() {
    let ctx = demo_ctx(vec![]);
    let map = info_plist(&ctx, "demo");
    assert_eq!(map.entries.len(), 6);
    assert_eq!(lookup(&map, "CFBundleExecutable"), Some("demo".to_string()));
    assert_eq!(lookup(&map, "CFBundleIdentifier"), Some("com.demo".to_string()));
    assert_eq!(lookup(&map, "CFBundleName"), Some("Demo".to_string()));
    assert_eq!(lookup(&map, "CFBundleVersion"), Some("1.0".to_string()));
    assert_eq!(lookup(&map, "CFBundleShortVersionString"), Some("1.0".to_string()));
    assert_eq!(lookup(&map, "CFBundlePackageType"), Some("APPL".to_string()));
}

#[test]
fn override_replaces_mandatory_value() {
    let ctx = demo_ctx(vec![
        ("CFBundleVersion".to_string(), "2.5".to_string()),
        ("UIRequiredDeviceCapabilities".to_string(), "arm64".to_string()),
    ]);
    let map = info_plist(&ctx, "demo");
    assert_eq!(map.entries.len(), 7);
    assert_eq!(lookup(&map, "CFBundleVersion"), Some("2.5".to_string()));
    assert_eq!(lookup(&map, "CFBundleShortVersionString"), Some("1.0".to_string()));
    assert_eq!(lookup(&map, "UIRequiredDeviceCapabilities"), Some("arm64".to_string()));
    let text = gen_info_plist(&map);
    assert!(text.contains("<key>CFBundleVersion</key>\n<string>2.5</string>\n"));
    assert!(text.contains("<key>CFBundleShortVersionString</key>\n<string>1.0</string>\n"));
    assert!(!text.contains("<key>CFBundleVersion</key>\n<string>1.0</string>\n"));
}

#[test]
fn manifest_generation_is_repeatable() {
    let ctx = demo_ctx(vec![("X".to_string(), "y".to_string())]);
    let a = gen_info_plist(&info_plist(&ctx, "demo"));
    let b = gen_info_plist(&info_plist(&ctx, "demo"));
    assert_eq!(a, b);
}
