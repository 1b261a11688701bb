use cargo_ipa::context::{Architecture, Ctx, Platform};
use cargo_ipa::plan::{
    binary_name, build_plan, bundle_layout, gen_app, gen_ipa, manifest_step, rust_target_triple,
    static_cargo_args, target_steps, xcode_swift_dir, Action, BuildArgs, Step,
};
use cargo_ipa::plist::info_plist;

fn demo_ctx() -> Ctx {
    Ctx::new(&Some("Demo".to_string()), "/p", "[package]\nname = \"demo\"\nversion = \"1.0\"\n").unwrap()
}

fn args(platform: Option<Platform>, architecture: Option<Architecture>) -> BuildArgs {
    BuildArgs { example: None, release: false, name: None, platform, architecture }
}

fn strings(v: &[&str]) -> Vec<String> {
    v.iter().map(|s| s.to_string()).collect()
}

fn s(x: &str) -> String {
    x.to_string()
}

#[test]
fn macos_bundle_layout() {
    let (plist, bin) = bundle_layout("/d/Demo.app", "demo", true);
    assert_eq!(plist, "/d/Demo.app/Contents/Info.plist");
    assert_eq!(bin, "/d/Demo.app/Contents/MacOS/demo");
}

#[test]
fn ios_bundle_layout() {
    let (plist, bin) = bundle_layout("/d/Demo.app", "demo", false);
    assert_eq!(plist, "/d/Demo.app/Info.plist");
    assert_eq!(bin, "/d/Demo.app/demo");
}

#[test]
fn macos_app_steps() {
    let ctx = demo_ctx();
    let (steps, name) = gen_app(&ctx, "x86_64-apple-darwin", true, &None, true);
    assert_eq!(name, "Demo.x86_64-apple-darwin.app");
    let app = "/p/target/cargo-ipa/Demo.x86_64-apple-darwin.app";
    let actions: Vec<Action> = steps.iter().map(|st| st.action.clone()).collect();
    assert_eq!(
        actions,
        vec![
            Action::RemoveTree(s(app)),
            Action::CreateDir(s(app)),
            Action::CreateDir(format!("{app}/Contents")),
            Action::CreateDir(format!("{app}/Contents/MacOS")),
            Action::Copy(s("/p/target/cargo-ipa/Info.plist"), format!("{app}/Contents/Info.plist")),
            Action::Copy(s("/p/target/x86_64-apple-darwin/release/demo"), format!("{app}/Contents/MacOS/demo")),
            Action::Run(s("chmod"), vec![s("+x"), format!("{app}/Contents/MacOS/demo")], None),
        ]
    );
    assert_eq!(steps[0].failure, "Error: App file already exists, and can't be removed");
    assert!(steps[0].with_reason);
    assert_eq!(steps[6].failure, "Error: Failed to make the app's binary executable");
}

#[test]
fn example_binary_comes_from_examples_folder() {
    let ctx = demo_ctx();
    let (steps, _) = gen_app(&ctx, "aarch64-apple-ios", false, &Some(s("hello")), false);
    assert_eq!(
        steps[3].action,
        Action::Copy(
            s("/p/target/aarch64-apple-ios/debug/examples/hello"),
            s("/p/target/cargo-ipa/Demo.aarch64-apple-ios.app/hello")
        )
    );
    assert_eq!(binary_name(&Some(s("hello")), "demo"), "hello");
    assert_eq!(binary_name(&None, "demo"), "demo");
}

#[test]
fn assembling_twice_plans_the_same_fresh_bundle() {
    let ctx = demo_ctx();
    let first = gen_app(&ctx, "aarch64-apple-darwin", false, &None, true);
    let second = gen_app(&ctx, "aarch64-apple-darwin", false, &None, true);
    assert_eq!(first, second);
    assert_eq!(first.0[0].action, Action::RemoveTree(s("/p/target/cargo-ipa/Demo.aarch64-apple-darwin.app")));
}

#[test]
fn ipa_for_demo_on_ios() {
    let ctx = demo_ctx();
    let triple = "aarch64-apple-ios";
    let (steps, ipa) = gen_ipa(&ctx, triple, false, &None);
    assert_eq!(ipa, "/p/target/cargo-ipa/Demoaarch64-apple-ios.ipa");
    assert_eq!(steps[0].action, Action::RemoveFile(s("/p/target/cargo-ipa/Demoaarch64-apple-ios.ipa")));
    assert_eq!(steps[1].action, Action::RemoveTree(s("/p/target/cargo-ipa/Payload")));
    assert_eq!(steps[2].action, Action::CreateDir(s("/p/target/cargo-ipa/Payload")));
    let n = steps.len();
    assert_eq!(
        steps[n - 2].action,
        Action::Rename(
            s("/p/target/cargo-ipa/Demo.aarch64-apple-ios.app"),
            s("/p/target/cargo-ipa/Payload/Demo.aarch64-apple-ios.app")
        )
    );
    assert_eq!(
        steps[n - 1].action,
        Action::Run(s("zip"), strings(&["-r", "Demoaarch64-apple-ios.ipa", "Payload"]), Some(s("/p/target/cargo-ipa")))
    );
    assert_eq!(steps[n - 1].failure, "Error: Failed to compress the app into an IPA! Aborting.");
}

#[test]
fn end_to_end_demo_plan() {
    let mut ctx = demo_ctx();
    let a = args(Some(Platform::iOS), Some(Architecture::aarch64));
    let steps = build_plan(&mut ctx, &a, "/xc", "", "").unwrap();
    match &steps[0].action {
        Action::WriteFile(path, text) => {
            assert_eq!(path, "/p/target/cargo-ipa/Info.plist");
            assert!(text.contains("<key>CFBundleIdentifier</key>\n<string>com.demo</string>\n"));
            assert!(text.contains("<key>CFBundleVersion</key>\n<string>1.0</string>\n"));
            assert!(text.contains("<key>CFBundleName</key>\n<string>Demo</string>\n"));
        }
        other => panic!("unexpected first step {other:?}"),
    }
    let archives: Vec<&Step> = steps
        .iter()
        .filter(|st| matches!(&st.action, Action::Run(p, _, _) if p == "zip"))
        .collect();
    assert_eq!(archives.len(), 1);
    assert_eq!(
        archives[0].action,
        Action::Run(s("zip"), strings(&["-r", "Demoaarch64-apple-ios.ipa", "Payload"]), Some(s("/p/target/cargo-ipa")))
    );
    assert!(steps.iter().any(|st| st.action
        == Action::Rename(
            s("/p/target/cargo-ipa/Demo.aarch64-apple-ios.app"),
            s("/p/target/cargo-ipa/Payload/Demo.aarch64-apple-ios.app")
        )));
}

#[test]
fn compile_failure_comes_before_any_bundle_step() {
    let ctx = demo_ctx();
    let a = args(None, None);
    let (steps, made) = target_steps(&ctx, &a, &None, &vec![], "/xc", "", Platform::iOS, Architecture::aarch64);
    assert_eq!(made, "/p/target/cargo-ipa/Demoaarch64-apple-ios.ipa");
    assert_eq!(
        steps[0].action,
        Action::Run(s("cargo"), strings(&["rustc", "--target", "aarch64-apple-ios", "-q", "--", "-L", "/xc/iphoneos"]), None)
    );
    assert_eq!(steps[0].failure, "Cargo failed to compile the project! Aborting.");
    assert!(!steps[1..].iter().any(|st| st.failure == "Cargo failed to compile the project! Aborting."));
}

#[test]
fn full_target_order_with_swift() {
    let mut ctx = demo_ctx();
    ctx.force_cargo_recompile = true;
    let a = BuildArgs { example: None, release: true, name: None, platform: None, architecture: None };
    let swift = Some(strings(&["--package-path", "/lib"]));
    let statics = static_cargo_args(true, &None, strings(&["--", "-l", "static=Lib"]));
    assert_eq!(statics, strings(&["--release", "--", "-l", "static=Lib"]));
    let (steps, made) = target_steps(&ctx, &a, &swift, &statics, "/xc", "/sdk/mac", Platform::macOS, Architecture::x86_64);
    assert_eq!(made, "/p/target/cargo-ipa/Demo.x86_64-apple-darwin.app");
    assert_eq!(
        steps[0].action,
        Action::Run(s("cargo"), strings(&["clean", "-p", "demo", "--target", "x86_64-apple-darwin", "-r"]), None)
    );
    assert_eq!(steps[0].failure, "Failed to clean old build files.");
    assert_eq!(
        steps[1].action,
        Action::Run(
            s("swift"),
            strings(&["build", "-Xswiftc", "-target", "-Xswiftc", "x86_64-apple-macosx11", "--sdk", "/sdk/mac", "--package-path", "/lib"]),
            None
        )
    );
    assert_eq!(steps[1].failure, "Swift failed to compile the project! Aborting.");
    assert_eq!(
        steps[2].action,
        Action::Run(
            s("cargo"),
            strings(&["rustc", "--target", "x86_64-apple-darwin", "-q", "--release", "--", "-l", "static=Lib", "-L", "/xc/macosx"]),
            None
        )
    );
    assert_eq!(steps[3].action, Action::RemoveTree(s("/p/target/cargo-ipa/Demo.x86_64-apple-darwin.app")));
}

#[test]
fn build_plan_covers_every_target() {
    let mut ctx = demo_ctx();
    let steps = build_plan(&mut ctx, &args(None, None), "/xc", "", "").unwrap();
    let compiles: Vec<&Step> = steps
        .iter()
        .filter(|st| st.failure == "Cargo failed to compile the project! Aborting.")
        .collect();
    assert_eq!(compiles.len(), 4);
    let zips = steps.iter().filter(|st| matches!(&st.action, Action::Run(p, _, _) if p == "zip")).count();
    assert_eq!(zips, 2);
    assert!(!ctx.force_cargo_recompile);
}

#[test]
fn build_plan_with_swift_generates_bindings_first() {
    let text = "[package]\nname = \"demo\"\nversion = \"1.0\"\n[package.metadata.cargo-ipa]\nswift-bridges = [\"src/lib.rs\"]\nswift-library = \"swift/MyLib\"\n";
    let mut ctx = Ctx::new(&None, "/p", text).unwrap();
    let steps = build_plan(&mut ctx, &args(Some(Platform::iOS), Some(Architecture::aarch64)), "/xc", "/m", "/i").unwrap();
    assert!(ctx.force_cargo_recompile);
    assert_eq!(
        steps[0].action,
        Action::GenerateBindings(strings(&["/p/src/lib.rs"]), s("/p/swift/MyLib/Sources/MyLib/generated"), s("demo"))
    );
    assert!(matches!(steps[1].action, Action::WriteFile(_, _)));
    assert_eq!(steps[2].failure, "Failed to clean old build files.");
}

#[test]
fn build_plan_rejects_half_a_swift_setup() {
    let text = "[package]\nname = \"demo\"\nversion = \"1.0\"\n[package.metadata.cargo-ipa]\nswift-library = \"swift/MyLib\"\n";
    let mut ctx = Ctx::new(&None, "/p", text).unwrap();
    let r = build_plan(&mut ctx, &args(None, None), "/xc", "", "");
    assert_eq!(r.unwrap_err(), "Incomplete Swift setup: `swift-bridges` and `swift-library` must be set together.");
}

#[test]
fn manifest_step_writes_into_tool_folder() {
    let ctx = demo_ctx();
    let st = manifest_step(&ctx, &info_plist(&ctx, "demo"));
    assert!(matches!(&st.action, Action::WriteFile(p, _) if p == "/p/target/cargo-ipa/Info.plist"));
    assert_eq!(st.failure, "Failed to write to Info.plist! The error was");
}

#[test]
fn rust_triples_and_xcode_folder() {
    assert_eq!(rust_target_triple(Platform::iOS, Architecture::aarch64), "aarch64-apple-ios");
    assert_eq!(rust_target_triple(Platform::macOS, Architecture::x86_64), "x86_64-apple-darwin");
    assert_eq!(
        xcode_swift_dir(&None),
        "/Applications/Xcode.app/Contents/Developer/Toolchains/XcodeDefault.xctoolchain/usr/lib/swift"
    );
    assert_eq!(
        xcode_swift_dir(&Some(s("/X/Developer"))),
        "/X/Developer/Toolchains/XcodeDefault.xctoolchain/usr/lib/swift"
    );
}
