use cargo_ipa::context::{Architecture, Ctx, Platform, ToolConfig};
use cargo_ipa::swift::{
    get_target_triple, link_directives, platform_of_swift_target, static_args, static_swiftc_args,
    swift_build_args, swift_link_args, swift_target_of, SwiftCtx,
};

fn ctx_with(bridges: Option<Vec<&str>>, library: Option<&str>) -> Ctx {
    let mut ctx = Ctx::new(&None, "/proj", "[package]\nname = \"demo\"\nversion = \"1.0\"\n").unwrap();
    ctx.cfg = Some(ToolConfig {
        name: None,
        swift_bridges: bridges.map(|b| b.into_iter().map(String::from).collect()),
        swift_library: library.map(String::from),
        properties: vec![],
    });
    ctx
}

#[test]
fn swift_triples() {
    assert_eq!(get_target_triple(Platform::iOS, Architecture::aarch64), "arm64-apple-ios14");
    assert_eq!(get_target_triple(Platform::iOS, Architecture::x86_64), "x86_64-apple-ios14");
    assert_eq!(get_target_triple(Platform::macOS, Architecture::aarch64), "arm64-apple-macosx11");
    assert_eq!(get_target_triple(Platform::macOS, Architecture::x86_64), "x86_64-apple-macosx11");
}

#[test]
fn swift_ctx_paths() {
    let ctx = ctx_with(Some(vec!["src/lib.rs"]), Some("swift/MyLib"));
    let s = SwiftCtx::new(&ctx, false).unwrap();
    assert_eq!(s.library_name, "MyLib");
    assert_eq!(s.library_path, "/proj/swift/MyLib");
    assert_eq!(s.source_path, "/proj/swift/MyLib/Sources/MyLib");
    assert_eq!(s.build_path, "/proj/swift/MyLib/.build/debug");
    assert_eq!(s.generated_code_path, "/proj/swift/MyLib/Sources/MyLib/generated");
    assert_eq!(s.bridging_header_path, "/proj/swift/MyLib/Sources/MyLib/bridging-header.h");
    assert_eq!(s.bridges, vec!["/proj/src/lib.rs".to_string()]);
    let r = SwiftCtx::new(&ctx, true).unwrap();
    assert_eq!(r.build_path, "/proj/swift/MyLib/.build/release");
}

#[test]
fn swift_ctx_errors() {
    let mut ctx = ctx_with(None, None);
    ctx.cfg = None;
    assert_eq!(SwiftCtx::new(&ctx, false).unwrap_err(), "Failed to get configuration!");
    let ctx = ctx_with(None, Some("swift/MyLib"));
    assert_eq!(SwiftCtx::new(&ctx, false).unwrap_err(), "No `swift-bridges` setting set!");
    let ctx = ctx_with(Some(vec![]), None);
    assert_eq!(SwiftCtx::new(&ctx, false).unwrap_err(), "No `swift-library` setting set!");
    let ctx = ctx_with(Some(vec![]), Some(".."));
    assert_eq!(SwiftCtx::new(&ctx, false).unwrap_err(), "Invalid `swift-library` setting: the path names no folder.");
}

#[test]
fn swiftc_static_arguments() {
    let ctx = ctx_with(Some(vec![]), Some("swift/MyLib"));
    let s = SwiftCtx::new(&ctx, true).unwrap();
    assert_eq!(
        static_swiftc_args(&s, true),
        vec![
            "--package-path", "/proj/swift/MyLib", "-Xswiftc", "-static", "-Xswiftc", "-import-objc-header",
            "-Xswiftc", "/proj/swift/MyLib/Sources/MyLib/bridging-header.h", "-c", "release",
        ]
    );
    assert_eq!(static_swiftc_args(&s, false).len(), 8);
    assert_eq!(
        swift_link_args(&s),
        vec!["--", "-l", "static=MyLib", "-L", "/proj/swift/MyLib/.build/release", "-L", "/usr/lib/swift"]
    );
}

#[test]
fn static_args_without_swift() {
    let mut ctx = ctx_with(None, None);
    assert_eq!(static_args(&mut ctx, false), Ok(None));
    assert!(!ctx.force_cargo_recompile);
}

#[test]
fn static_args_with_half_a_setup() {
    let mut ctx = ctx_with(Some(vec!["src/lib.rs"]), None);
    assert_eq!(
        static_args(&mut ctx, false).unwrap_err(),
        "Incomplete Swift setup: `swift-bridges` and `swift-library` must be set together."
    );
    assert!(!ctx.force_cargo_recompile);
}

#[test]
fn static_args_with_swift_forces_rebuild() {
    let mut ctx = ctx_with(Some(vec!["src/lib.rs"]), Some("swift/MyLib"));
    let (swift, cargo) = static_args(&mut ctx, false).unwrap().unwrap();
    assert!(ctx.force_cargo_recompile);
    assert_eq!(swift[1], "/proj/swift/MyLib");
    assert_eq!(cargo[2], "static=MyLib");
}

#[test]
fn swift_target_from_rust_target() {
    assert_eq!(swift_target_of("aarch64-apple-ios"), "arm64-apple-ios14");
    assert_eq!(swift_target_of("x86_64-apple-darwin"), "x86_64-apple-macosx11");
    assert_eq!(swift_target_of("aarch64-apple-ios-sim"), "arm64-apple-ios14-sim");
    assert_eq!(platform_of_swift_target("arm64-apple-ios14"), Platform::iOS);
    assert_eq!(platform_of_swift_target("x86_64-apple-macosx11"), Platform::macOS);
}

#[test]
fn swift_build_arguments() {
    let statics = vec!["--package-path".to_string(), "/x".to_string()];
    assert_eq!(
        swift_build_args("arm64-apple-ios14", "/sdk", &statics),
        vec!["build", "-Xswiftc", "-target", "-Xswiftc", "arm64-apple-ios14", "--sdk", "/sdk", "--package-path", "/x"]
    );
}

#[test]
fn build_script_link_lines() {
    let ctx = ctx_with(Some(vec![]), Some("swift/MyLib"));
    let s = SwiftCtx::new(&ctx, false).unwrap();
    assert_eq!(
        link_directives(&s, "/xc/swift", Platform::iOS),
        vec![
            "cargo:rustc-link-lib=static=MyLib",
            "cargo:rustc-link-search=/proj/swift/MyLib/.build/debug",
            "cargo:rustc-link-search=/xc/swift/iphoneos",
            "cargo:rustc-link-search=/usr/lib/swift",
        ]
    );
}

#[test]
fn links_swift_only_with_both_settings() {
    assert!(cargo_ipa::swift::links_swift(&ctx_with(Some(vec![]), Some("swift/MyLib"))));
    assert!(!cargo_ipa::swift::links_swift(&ctx_with(None, Some("swift/MyLib"))));
    assert!(!cargo_ipa::swift::links_swift(&ctx_with(Some(vec![]), None)));
}
