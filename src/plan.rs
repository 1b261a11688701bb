//! The steps of a build: the tool invocations and file operations that make a
//! bundle for each target, in the order in which they must run.
//!
//! A plan is carried out step by step, and stops at the first step that fails,
//! reporting that step's message.
use vstd::prelude::*;

use crate::context::{architecture_text, opt_text, platform_text, Architecture, Ctx, Platform};
use crate::plist::{info_plist, keys_distinct, entries_view, manifest_entries};
use crate::swift::{bridge_half_set, bridge_set, static_args, swift_link_args_of, swiftc_args_of, SwiftCtx};
use crate::paths::last_component;
use crate::targets::{gen_targets_list, target_matrix};
use crate::paths::{join_path, joined};
use crate::plist::{gen_info_plist, plist_text, InfoPlist};
use crate::swift::{
    mode_dir, sdk_name, sdk_text, swift_build_args, swift_build_args_of, swift_triple, get_target_triple,
};
use crate::text::views;

verus! {

/// An operation on the file system, or a program to run.
#[derive(Debug, Clone, PartialEq, Eq)]
pub enum Action {
    /// Remove the directory tree at the path, where there is one.
    RemoveTree(String),
    /// Remove the file at the path, where there is one.
    RemoveFile(String),
    /// Create a directory.
    CreateDir(String),
    /// Write the text to the file at the path.
    WriteFile(String, String),
    /// Copy the contents of the first file to the second.
    Copy(String, String),
    /// Move the first path to the second.
    Rename(String, String),
    /// Run a program with arguments, in the given working directory or the
    /// current one.
    Run(String, Vec<String>, Option<String>),
    /// Generate the Swift bindings that the bridge files declare into the
    /// folder, for the crate of the given name.
    GenerateBindings(Vec<String>, String, String),
}

/// The view of an [`Action`].
pub enum Act {
    RemoveTree(Seq<char>),
    RemoveFile(Seq<char>),
    CreateDir(Seq<char>),
    WriteFile(Seq<char>, Seq<char>),
    Copy(Seq<char>, Seq<char>),
    Rename(Seq<char>, Seq<char>),
    Run(Seq<char>, Seq<Seq<char>>, Option<Seq<char>>),
    GenerateBindings(Seq<Seq<char>>, Seq<char>, Seq<char>),
}

impl Action {
    pub open spec fn view(&self) -> Act {
        match self {
            Action::RemoveTree(p) => Act::RemoveTree(p@),
            Action::RemoveFile(p) => Act::RemoveFile(p@),
            Action::CreateDir(p) => Act::CreateDir(p@),
            Action::WriteFile(p, c) => Act::WriteFile(p@, c@),
            Action::Copy(a, b) => Act::Copy(a@, b@),
            Action::Rename(a, b) => Act::Rename(a@, b@),
            Action::Run(prog, args, cwd) => Act::Run(prog@, views(args@), match cwd {
                Some(d) => Some(d@),
                None => None,
            }),
            Action::GenerateBindings(bridges, out, krate) => Act::GenerateBindings(views(bridges@), out@, krate@),
        }
    }
}

/// One step of a plan.
#[derive(Debug, Clone, PartialEq, Eq)]
pub struct Step {
    pub action: Action,
    /// What to report where the action fails.
    pub failure: String,
    /// Whether the report goes on with the reason that the action gave.
    pub with_reason: bool,
}

/// The view of a [`Step`]: its action, its failure message, and whether the
/// reason follows the message.
pub type StepView = (Act, Seq<char>, bool);

impl Step {
    pub open spec fn view(&self) -> StepView {
        (self.action@, self.failure@, self.with_reason)
    }
}

/// The views of a list of steps.
pub open spec fn plan_view(steps: Seq<Step>) -> Seq<StepView> {
    steps.map_values(|s: Step| s@)
}

fn step(action: Action, failure: &str, with_reason: bool) -> (r: Step)
    ensures
        r@ == (action@, failure@, with_reason),
{
    Step { action, failure: String::from_str(failure), with_reason }
}

fn push_step(steps: &mut Vec<Step>, s: Step)
    ensures
        plan_view(final(steps)@) == plan_view(old(steps)@).push(s@),
{
    let ghost before = steps@;
    steps.push(s);
    assert(plan_view(steps@) =~= plan_view(before).push(s@));
}

fn append_steps(steps: &mut Vec<Step>, more: Vec<Step>)
    ensures
        plan_view(final(steps)@) == plan_view(old(steps)@) + plan_view(more@),
{
    let ghost before = steps@;
    let ghost all = more@;
    let mut more = more;
    steps.append(&mut more);
    assert(plan_view(steps@) =~= plan_view(before) + plan_view(all));
}

/// The name of the bundle for a target.
pub open spec fn app_name_of(name: Seq<char>, triple: Seq<char>) -> Seq<char> {
    name + "."@ + triple + ".app"@
}

/// The name of the archive for a target.
pub open spec fn ipa_name_of(name: Seq<char>, triple: Seq<char>) -> Seq<char> {
    name + triple + ".ipa"@
}

/// The name of the binary: the example's, where one is built, else the package's.
pub open spec fn binary_name_of(example: Option<Seq<char>>, id: Seq<char>) -> Seq<char> {
    match example {
        Some(e) => e,
        None => id,
    }
}

/// Where Cargo leaves the binary for a target.
pub open spec fn built_binary(target_dir: Seq<char>, triple: Seq<char>, release: bool, example: Option<Seq<char>>, id: Seq<char>) -> Seq<char> {
    let base = joined(joined(target_dir, triple), mode_dir(release));
    let dir = if example is Some { joined(base, "examples"@) } else { base };
    joined(dir, binary_name_of(example, id))
}

/// Where a bundle keeps its `Info.plist`: under `Contents` on macOS, at the top
/// on iOS.
pub open spec fn plist_dest(app: Seq<char>, macos: bool) -> Seq<char> {
    if macos {
        joined(joined(app, "Contents"@), "Info.plist"@)
    } else {
        joined(app, "Info.plist"@)
    }
}

/// Where a bundle keeps its binary: under `Contents/MacOS` on macOS, at the top
/// on iOS.
pub open spec fn binary_dest(app: Seq<char>, bin: Seq<char>, macos: bool) -> Seq<char> {
    if macos {
        joined(joined(joined(app, "Contents"@), "MacOS"@), bin)
    } else {
        joined(app, bin)
    }
}

/// The steps that assemble the bundle of one target in the folder `dir`.
pub open spec fn app_plan(
    dir: Seq<char>,
    target_dir: Seq<char>,
    id: Seq<char>,
    name: Seq<char>,
    triple: Seq<char>,
    release: bool,
    example: Option<Seq<char>>,
    macos: bool,
) -> Seq<StepView> {
    let app = joined(dir, app_name_of(name, triple));
    let bin = binary_name_of(example, id);
    let dest = binary_dest(app, bin, macos);
    seq![
        (Act::RemoveTree(app), "Error: App file already exists, and can't be removed"@, true),
        (Act::CreateDir(app), "Error: Failed to create .app directory"@, true),
    ] + (if macos {
        seq![
            (Act::CreateDir(joined(app, "Contents"@)), "Error: Failed to create Contents directory in the app"@, true),
            (Act::CreateDir(joined(joined(app, "Contents"@), "MacOS"@)), "Error: Failed to create MacOS directory in the app"@, true),
        ]
    } else {
        seq![]
    }) + seq![
        (Act::Copy(joined(dir, "Info.plist"@), plist_dest(app, macos)), "Error: Failed to copy Info.plist to the new app"@, false),
        (Act::Copy(built_binary(target_dir, triple, release, example, id), dest), "Error: Failed to copy the binary to the new app"@, false),
        (Act::Run("chmod"@, seq!["+x"@, dest], None), "Error: Failed to make the app's binary executable"@, false),
    ]
}

/// The paths of a bundle's `Info.plist` and binary.
pub fn bundle_layout(app_path: &str, bin_name: &str, macos: bool) -> (r: (String, String))
    ensures
        r.0@ == plist_dest(app_path@, macos),
        r.1@ == binary_dest(app_path@, bin_name@, macos),
{
    if macos {
        let contents = join_path(app_path, "Contents");
        let macos_dir = join_path(contents.as_str(), "MacOS");
        (join_path(contents.as_str(), "Info.plist"), join_path(macos_dir.as_str(), bin_name))
    } else {
        (join_path(app_path, "Info.plist"), join_path(app_path, bin_name))
    }
}

/// The name of the binary that is bundled.
pub fn binary_name(example: &Option<String>, project_id: &str) -> (r: String)
    ensures
        r@ == binary_name_of(opt_text(*example), project_id@),
{
    match example {
        Some(e) => e.clone(),
        None => String::from_str(project_id),
    }
}

/// Plans the bundle of one target: a fresh `<name>.<triple>.app` folder in the
/// tool's folder, holding the `Info.plist` and the binary that Cargo built,
/// laid out as the platform expects. Returns the steps and the bundle's name.
pub fn gen_app(ctx: &Ctx, target_triple: &str, release: bool, example: &Option<String>, macos: bool) -> (r: (Vec<Step>, String))
    ensures
        plan_view(r.0@) == app_plan(
            ctx.cargo_ipa_dir@,
            ctx.target_dir@,
            ctx.project_id@,
            ctx.project_name@,
            target_triple@,
            release,
            opt_text(*example),
            macos,
        ),
        r.1@ == app_name_of(ctx.project_name@, target_triple@),
{
    let mut app_name = ctx.project_name.clone();
    app_name.append(".");
    app_name.append(target_triple);
    app_name.append(".app");
    let app_path = join_path(ctx.cargo_ipa_dir.as_str(), app_name.as_str());

    let mut steps: Vec<Step> = Vec::new();
    push_step(&mut steps, step(Action::RemoveTree(app_path.clone()), "Error: App file already exists, and can't be removed", true));
    push_step(&mut steps, step(Action::CreateDir(app_path.clone()), "Error: Failed to create .app directory", true));

    // Find the binary
    let bin_name = binary_name(example, ctx.project_id.as_str());
    let triple_dir = join_path(ctx.target_dir.as_str(), target_triple);
    let mut bin_dir = join_path(triple_dir.as_str(), if release { "release" } else { "debug" });
    if example.is_some() {
        bin_dir = join_path(bin_dir.as_str(), "examples");
    }
    let bin_path = join_path(bin_dir.as_str(), bin_name.as_str());
    let info_plist_path = join_path(ctx.cargo_ipa_dir.as_str(), "Info.plist");

    // The layout of the bundle differs between iOS and macOS
    if macos {
        let contents_path = join_path(app_path.as_str(), "Contents");
        let macos_path = join_path(contents_path.as_str(), "MacOS");
        push_step(&mut steps, step(Action::CreateDir(contents_path), "Error: Failed to create Contents directory in the app", true));
        push_step(&mut steps, step(Action::CreateDir(macos_path), "Error: Failed to create MacOS directory in the app", true));
    }
    let (new_info_plist_path, new_bin_path) = bundle_layout(app_path.as_str(), bin_name.as_str(), macos);
    push_step(&mut steps, step(Action::Copy(info_plist_path, new_info_plist_path), "Error: Failed to copy Info.plist to the new app", false));
    push_step(&mut steps, step(Action::Copy(bin_path, new_bin_path.clone()), "Error: Failed to copy the binary to the new app", false));
    let chmod_args = vec![String::from_str("+x"), new_bin_path];
    proof { assert(views(chmod_args@) =~= seq!["+x"@, binary_dest(app_path@, bin_name@, macos)]); }
    push_step(&mut steps, step(Action::Run(String::from_str("chmod"), chmod_args, None), "Error: Failed to make the app's binary executable", false));
    assert(plan_view(steps@) =~= app_plan(
        ctx.cargo_ipa_dir@,
        ctx.target_dir@,
        ctx.project_id@,
        ctx.project_name@,
        target_triple@,
        release,
        opt_text(*example),
        macos,
    ));
    (steps, app_name)
}

/// The steps that package the iOS bundle of one target into an archive.
pub open spec fn ipa_plan(
    dir: Seq<char>,
    target_dir: Seq<char>,
    id: Seq<char>,
    name: Seq<char>,
    triple: Seq<char>,
    release: bool,
    example: Option<Seq<char>>,
) -> Seq<StepView> {
    let payload = joined(dir, "Payload"@);
    let app_name = app_name_of(name, triple);
    seq![
        (Act::RemoveFile(joined(dir, ipa_name_of(name, triple))), "Error: IPA file already exists, and can't be removed"@, true),
        (Act::RemoveTree(payload), "Error: Build files already exist, and can't be removed"@, true),
        (Act::CreateDir(payload), "Error: Failed to create build directory"@, true),
    ] + app_plan(dir, target_dir, id, name, triple, release, example, false) + seq![
        (Act::Rename(joined(dir, app_name), joined(payload, app_name)), "Error: Failed to copy .app file for compression"@, true),
        (Act::Run("zip"@, seq!["-r"@, ipa_name_of(name, triple), "Payload"@], Some(dir)), "Error: Failed to compress the app into an IPA! Aborting."@, false),
    ]
}

/// Plans the archive of one iOS target: its bundle, moved into a fresh
/// `Payload` folder, compressed into `<name><triple>.ipa` from within the tool's
/// folder so that the archive holds `Payload` at its top. Returns the steps and
/// the archive's path.
pub fn gen_ipa(ctx: &Ctx, target_triple: &str, release: bool, example: &Option<String>) -> (r: (Vec<Step>, String))
    ensures
        plan_view(r.0@) == ipa_plan(
            ctx.cargo_ipa_dir@,
            ctx.target_dir@,
            ctx.project_id@,
            ctx.project_name@,
            target_triple@,
            release,
            opt_text(*example),
        ),
        r.1@ == joined(ctx.cargo_ipa_dir@, ipa_name_of(ctx.project_name@, target_triple@)),
{
    let mut ipa_name = ctx.project_name.clone();
    ipa_name.append(target_triple);
    ipa_name.append(".ipa");
    let ipa_file = join_path(ctx.cargo_ipa_dir.as_str(), ipa_name.as_str());
    let payload_folder = join_path(ctx.cargo_ipa_dir.as_str(), "Payload");

    let mut steps: Vec<Step> = Vec::new();
    push_step(&mut steps, step(Action::RemoveFile(ipa_file.clone()), "Error: IPA file already exists, and can't be removed", true));
    push_step(&mut steps, step(Action::RemoveTree(payload_folder.clone()), "Error: Build files already exist, and can't be removed", true));
    push_step(&mut steps, step(Action::CreateDir(payload_folder.clone()), "Error: Failed to create build directory", true));

    let (app_steps, app_name) = gen_app(ctx, target_triple, release, example, false);
    append_steps(&mut steps, app_steps);

    let from = join_path(ctx.cargo_ipa_dir.as_str(), app_name.as_str());
    let to = join_path(payload_folder.as_str(), app_name.as_str());
    push_step(&mut steps, step(Action::Rename(from, to), "Error: Failed to copy .app file for compression", true));

    let zip_args = vec![String::from_str("-r"), ipa_name, String::from_str("Payload")];
    proof { assert(views(zip_args@) =~= seq!["-r"@, ipa_name_of(ctx.project_name@, target_triple@), "Payload"@]); }
    push_step(
        &mut steps,
        step(Action::Run(String::from_str("zip"), zip_args, Some(ctx.cargo_ipa_dir.clone())), "Error: Failed to compress the app into an IPA! Aborting.", false),
    );
    assert(plan_view(steps@) =~= ipa_plan(
        ctx.cargo_ipa_dir@,
        ctx.target_dir@,
        ctx.project_id@,
        ctx.project_name@,
        target_triple@,
        release,
        opt_text(*example),
    ));
    (steps, ipa_file)
}

/// What a build is asked for.
#[derive(Debug, Clone, PartialEq, Eq)]
pub struct BuildArgs {
    /// The example to bundle instead of the package's binary.
    pub example: Option<String>,
    /// Whether to compile in release mode.
    pub release: bool,
    /// The bundle's name, where it is given.
    pub name: Option<String>,
    /// The one platform to build for, where not both.
    pub platform: Option<Platform>,
    /// The one architecture to build for, where not both.
    pub architecture: Option<Architecture>,
}

/// The arguments to Cargo that do not depend on the target.
pub open spec fn static_cargo_args_of(release: bool, example: Option<Seq<char>>, link: Seq<Seq<char>>) -> Seq<Seq<char>> {
    (if release { seq!["--release"@] } else { seq![] })
        + (match example {
            Some(e) => seq!["--example"@, e],
            None => seq![],
        })
        + link
}

fn push_string(v: &mut Vec<String>, s: String)
    ensures
        views(final(v)@) == views(old(v)@).push(s@),
{
    let ghost before = v@;
    v.push(s);
    assert(views(v@) =~= views(before).push(s@));
}

fn append_strings(v: &mut Vec<String>, more: Vec<String>)
    ensures
        views(final(v)@) == views(old(v)@) + views(more@),
{
    let ghost before = v@;
    let ghost all = more@;
    let mut more = more;
    v.append(&mut more);
    assert(views(v@) =~= views(before) + views(all));
}

/// Arguments to Cargo that do not depend on the target: release mode, the
/// example to build, and those that link the Swift library in.
pub fn static_cargo_args(release: bool, example: &Option<String>, swift_link: Vec<String>) -> (r: Vec<String>)
    ensures
        views(r@) == static_cargo_args_of(release, opt_text(*example), views(swift_link@)),
{
    let mut args: Vec<String> = Vec::new();
    if release {
        push_string(&mut args, String::from_str("--release"));
    }
    match example {
        Some(e) => {
            push_string(&mut args, String::from_str("--example"));
            push_string(&mut args, e.clone());
        },
        None => {},
    }
    append_strings(&mut args, swift_link);
    assert(views(args@) =~= static_cargo_args_of(release, opt_text(*example), views(swift_link@)));
    args
}

/// The step that writes the `Info.plist` into the tool's folder.
pub fn manifest_step(ctx: &Ctx, map: &InfoPlist) -> (r: Step)
    ensures
        r@ == (
            Act::WriteFile(joined(ctx.cargo_ipa_dir@, "Info.plist"@), plist_text(map.entries@)),
            "Failed to write to Info.plist! The error was"@,
            true,
        ),
{
    let path = join_path(ctx.cargo_ipa_dir.as_str(), "Info.plist");
    step(Action::WriteFile(path, gen_info_plist(map)), "Failed to write to Info.plist! The error was", true)
}

/// Rust's target triple for a platform and an architecture.
pub open spec fn rust_triple(p: Platform, a: Architecture) -> Seq<char> {
    architecture_text(a) + "-apple-"@ + platform_text(p)
}

/// Rust's target triple for a platform and an architecture.
pub fn rust_target_triple(platform: Platform, architecture: Architecture) -> (r: String)
    ensures
        r@ == rust_triple(platform, architecture),
{
    let mut r = architecture.to_string();
    r.append("-apple-");
    let p = platform.to_string();
    r.append(p.as_str());
    r
}

/// The arguments to `cargo rustc` for one target: the target, quiet output,
/// the static arguments, then (after a `--`, added unless they hold one) the
/// search path of the platform's Swift libraries.
pub open spec fn cargo_rustc_args_of(triple: Seq<char>, statics: Seq<Seq<char>>, toolchain: Seq<char>) -> Seq<Seq<char>> {
    seq!["rustc"@, "--target"@, triple, "-q"@] + statics
        + (if statics.contains("--"@) { seq![] } else { seq!["--"@] })
        + seq!["-L"@, toolchain]
}

/// The arguments to `cargo clean` that drop the package's build for a target.
pub open spec fn cargo_clean_args_of(id: Seq<char>, triple: Seq<char>, release: bool) -> Seq<Seq<char>> {
    seq!["clean"@, "-p"@, id, "--target"@, triple] + if release { seq!["-r"@] } else { seq![] }
}

pub open spec fn msg_clean_failed() -> Seq<char> {
    "Failed to clean old build files."@
}

pub open spec fn msg_swift_failed() -> Seq<char> {
    "Swift failed to compile the project! Aborting."@
}

pub open spec fn msg_cargo_failed() -> Seq<char> {
    "Cargo failed to compile the project! Aborting."@
}

/// The steps that compile the binary for one target, before it is bundled.
pub open spec fn compile_plan(
    ctx: Ctx,
    release: bool,
    swift_args: Option<Seq<Seq<char>>>,
    statics: Seq<Seq<char>>,
    xcode_swift_dir: Seq<char>,
    sdk: Seq<char>,
    p: Platform,
    a: Architecture,
) -> Seq<StepView> {
    let triple = rust_triple(p, a);
    (if ctx.force_cargo_recompile {
        seq![(Act::Run("cargo"@, cargo_clean_args_of(ctx.project_id@, triple, release), None), msg_clean_failed(), false)]
    } else {
        seq![]
    }) + (match swift_args {
        Some(sa) => seq![(Act::Run("swift"@, swift_build_args_of(swift_triple(p, a), sdk, sa), None), msg_swift_failed(), false)],
        None => seq![],
    }) + seq![
        (Act::Run("cargo"@, cargo_rustc_args_of(triple, statics, joined(xcode_swift_dir, sdk_text(p))), None), msg_cargo_failed(), false),
    ]
}

/// The steps that make the bundle of one target once its binary is built: a
/// `.app` on macOS, an `.ipa` on iOS.
pub open spec fn bundle_plan(ctx: Ctx, release: bool, example: Option<Seq<char>>, p: Platform, a: Architecture) -> Seq<StepView> {
    let triple = rust_triple(p, a);
    match p {
        Platform::macOS => app_plan(ctx.cargo_ipa_dir@, ctx.target_dir@, ctx.project_id@, ctx.project_name@, triple, release, example, true),
        Platform::iOS => ipa_plan(ctx.cargo_ipa_dir@, ctx.target_dir@, ctx.project_id@, ctx.project_name@, triple, release, example),
    }
}

fn contains_dashes(v: &Vec<String>) -> (r: bool)
    ensures
        r == views(v@).contains("--"@),
{
    proof { reveal_strlit("--"); }
    let mut i: usize = 0;
    while i < v.len()
        invariant
            i <= v@.len(),
            forall|j: int| 0 <= j < i ==> v@[j]@ != "--"@,
        decreases v@.len() - i,
    {
        proof { reveal_strlit("--"); }
        let s = v[i].as_str();
        if s.unicode_len() == 2 && s.get_char(0) == '-' && s.get_char(1) == '-' {
            assert(v@[i as int]@ =~= "--"@);
            assert(views(v@)[i as int] == "--"@);
            return true;
        }
        assert(v@[i as int]@ != "--"@) by {
            if v@[i as int]@ == "--"@ {
                assert(v@[i as int]@[0] == '-' && v@[i as int]@[1] == '-');
            }
        }
        i = i + 1;
    }
    assert(!views(v@).contains("--"@)) by {
        if views(v@).contains("--"@) {
            let j = choose|j: int| 0 <= j < views(v@).len() && views(v@)[j] == "--"@;
            assert(v@[j]@ == "--"@);
        }
    }
    false
}

/// Plans the build of one target: a clean build where the context asks for
/// one, the Swift package where one is linked (`swift_args`, with the
/// platform's SDK at `sdk`), the Rust binary, and then its bundle. Returns the
/// steps and the path of what is made: the `.app` on macOS, the `.ipa` on iOS.
pub fn target_steps(
    ctx: &Ctx,
    args: &BuildArgs,
    swift_args: &Option<Vec<String>>,
    statics: &Vec<String>,
    xcode_swift_dir: &str,
    sdk: &str,
    platform: Platform,
    architecture: Architecture,
) -> (r: (Vec<Step>, String))
    ensures
        plan_view(r.0@) == compile_plan(
            *ctx,
            args.release,
            match *swift_args {
                Some(sa) => Some(views(sa@)),
                None => None,
            },
            views(statics@),
            xcode_swift_dir@,
            sdk@,
            platform,
            architecture,
        ) + bundle_plan(*ctx, args.release, opt_text(args.example), platform, architecture),
        r.1@ == match platform {
            Platform::macOS => joined(ctx.cargo_ipa_dir@, app_name_of(ctx.project_name@, rust_triple(platform, architecture))),
            Platform::iOS => joined(ctx.cargo_ipa_dir@, ipa_name_of(ctx.project_name@, rust_triple(platform, architecture))),
        },
{
    let target_triple = rust_target_triple(platform, architecture);
    let mut steps: Vec<Step> = Vec::new();

    if ctx.force_cargo_recompile {
        let mut clean_args = vec![
            String::from_str("clean"),
            String::from_str("-p"),
            ctx.project_id.clone(),
            String::from_str("--target"),
            target_triple.clone(),
        ];
        if args.release {
            clean_args.push(String::from_str("-r"));
        }
        proof {
            assert(views(clean_args@) =~= cargo_clean_args_of(ctx.project_id@, target_triple@, args.release));
        }
        push_step(&mut steps, step(Action::Run(String::from_str("cargo"), clean_args, None), "Failed to clean old build files.", false));
    }

    match swift_args {
        Some(sa) => {
            let target = get_target_triple(platform, architecture);
            let swift_build = swift_build_args(target.as_str(), sdk, sa);
            push_step(&mut steps, step(Action::Run(String::from_str("swift"), swift_build, None), "Swift failed to compile the project! Aborting.", false));
        },
        None => {},
    }

    let mut cargo_args = vec![
        String::from_str("rustc"),
        String::from_str("--target"),
        target_triple.clone(),
        String::from_str("-q"),
    ];
    proof { assert(views(cargo_args@) =~= seq!["rustc"@, "--target"@, target_triple@, "-q"@]); }
    let mut i: usize = 0;
    while i < statics.len()
        invariant
            i <= statics@.len(),
            views(cargo_args@) == seq!["rustc"@, "--target"@, target_triple@, "-q"@] + views(statics@.take(i as int)),
        decreases statics@.len() - i,
    {
        push_string(&mut cargo_args, statics[i].clone());
        assert(views(statics@.take(i + 1)) =~= views(statics@.take(i as int)).push(statics@[i as int]@));
        i = i + 1;
    }
    assert(statics@.take(i as int) =~= statics@);
    if !contains_dashes(statics) {
        push_string(&mut cargo_args, String::from_str("--"));
    }
    push_string(&mut cargo_args, String::from_str("-L"));
    push_string(&mut cargo_args, join_path(xcode_swift_dir, sdk_name(platform)));
    assert(views(cargo_args@) =~= cargo_rustc_args_of(target_triple@, views(statics@), joined(xcode_swift_dir@, sdk_text(platform))));
    push_step(&mut steps, step(Action::Run(String::from_str("cargo"), cargo_args, None), "Cargo failed to compile the project! Aborting.", false));

    let (bundle_steps, made) = match platform {
        Platform::macOS => {
            let (s, app_name) = gen_app(ctx, target_triple.as_str(), args.release, &args.example, true);
            (s, join_path(ctx.cargo_ipa_dir.as_str(), app_name.as_str()))
        },
        Platform::iOS => gen_ipa(ctx, target_triple.as_str(), args.release, &args.example),
    };
    append_steps(&mut steps, bundle_steps);
    assert(plan_view(steps@) =~= compile_plan(
        *ctx,
        args.release,
        match *swift_args {
            Some(sa) => Some(views(sa@)),
            None => None,
        },
        views(statics@),
        xcode_swift_dir@,
        sdk@,
        platform,
        architecture,
    ) + bundle_plan(*ctx, args.release, opt_text(args.example), platform, architecture));
    (steps, made)
}

/// Where Xcode keeps its Swift libraries, given Xcode's developer folder as
/// `xcode-select` reports it, or the usual one where it reports none.
pub open spec fn xcode_swift_dir_of(developer_dir: Option<Seq<char>>) -> Seq<char> {
    joined(
        match developer_dir {
            Some(d) => d,
            None => "/Applications/Xcode.app/Contents/Developer"@,
        },
        "Toolchains/XcodeDefault.xctoolchain/usr/lib/swift"@,
    )
}

/// The folder of Xcode's Swift libraries.
pub fn xcode_swift_dir(developer_dir: &Option<String>) -> (r: String)
    ensures
        r@ == xcode_swift_dir_of(opt_text(*developer_dir)),
{
    let dir = match developer_dir {
        Some(d) => d.as_str(),
        None => "/Applications/Xcode.app/Contents/Developer",
    };
    join_path(dir, "Toolchains/XcodeDefault.xctoolchain/usr/lib/swift")
}

/// The SDK path for a platform, of the two given.
pub open spec fn sdk_for(p: Platform, macos_sdk: Seq<char>, ios_sdk: Seq<char>) -> Seq<char> {
    match p {
        Platform::macOS => macos_sdk,
        Platform::iOS => ios_sdk,
    }
}

/// The steps that build and bundle each of `targets`, one target after another.
pub open spec fn targets_plan(
    ctx: Ctx,
    release: bool,
    example: Option<Seq<char>>,
    swift_args: Option<Seq<Seq<char>>>,
    statics: Seq<Seq<char>>,
    xcode_swift_dir: Seq<char>,
    macos_sdk: Seq<char>,
    ios_sdk: Seq<char>,
    targets: Seq<(Platform, Architecture)>,
) -> Seq<StepView>
    decreases targets.len(),
{
    if targets.len() == 0 {
        seq![]
    } else {
        let (p, a) = targets.last();
        targets_plan(ctx, release, example, swift_args, statics, xcode_swift_dir, macos_sdk, ios_sdk, targets.drop_last())
            + compile_plan(ctx, release, swift_args, statics, xcode_swift_dir, sdk_for(p, macos_sdk, ios_sdk), p, a)
            + bundle_plan(ctx, release, example, p, a)
    }
}

/// The Swift package's folder, as `swift-library` names it from the root.
pub open spec fn library_path_of(ctx: Ctx) -> Seq<char> {
    joined(ctx.root_dir@, ctx.cfg->Some_0.swift_library->Some_0@)
}

/// The Swift package's source folder.
pub open spec fn swift_source_of(ctx: Ctx) -> Seq<char> {
    joined(joined(library_path_of(ctx), "Sources"@), last_component(library_path_of(ctx))->Some_0)
}

/// The bridge files, from the project's root.
pub open spec fn bridge_files_of(ctx: Ctx) -> Seq<Seq<char>> {
    views(ctx.cfg->Some_0.swift_bridges->Some_0@).map_values(|b: Seq<char>| joined(ctx.root_dir@, b))
}

/// The step that writes an `Info.plist` for a bundle whose executable is `bin`.
pub open spec fn is_manifest_step(s: StepView, ctx: Ctx, bin: Seq<char>) -> bool {
    exists|e: Seq<(String, String)>| {
        &&& keys_distinct(e)
        &&& #[trigger] entries_view(e) == manifest_entries(bin, ctx)
        &&& s == (Act::WriteFile(joined(ctx.cargo_ipa_dir@, "Info.plist"@), plist_text(e)), "Failed to write to Info.plist! The error was"@, true)
    }
}

/// Plans a whole build: the Swift bindings where a Swift package is linked,
/// the `Info.plist`, and then each target's build and bundle, in the order of
/// [`gen_targets_list`]. `macos_sdk` and `ios_sdk` are the SDK paths, needed
/// only where a Swift package is linked. Linking one makes each target's Rust
/// build start clean.
pub fn build_plan(ctx: &mut Ctx, args: &BuildArgs, xcode_swift_dir: &str, macos_sdk: &str, ios_sdk: &str) -> (r: Result<Vec<Step>, String>)
    ensures
        bridge_half_set(*old(ctx)) ==> r is Err
            && r->Err_0@ == "Incomplete Swift setup: `swift-bridges` and `swift-library` must be set together."@,
        bridge_set(*old(ctx)) && last_component(library_path_of(*old(ctx))) is None ==> r is Err
            && r->Err_0@ == "Invalid `swift-library` setting: the path names no folder."@,
        !bridge_half_set(*old(ctx)) && !bridge_set(*old(ctx)) ==> {
            &&& *final(ctx) == *old(ctx)
            &&& r is Ok
            &&& plan_view(r->Ok_0@).len() >= 1
            &&& is_manifest_step(plan_view(r->Ok_0@)[0], *old(ctx), binary_name_of(opt_text(args.example), old(ctx).project_id@))
            &&& plan_view(r->Ok_0@).skip(1) == targets_plan(
                *old(ctx),
                args.release,
                opt_text(args.example),
                None,
                static_cargo_args_of(args.release, opt_text(args.example), seq![]),
                xcode_swift_dir@,
                macos_sdk@,
                ios_sdk@,
                target_matrix(args.platform, args.architecture),
            )
        },
        bridge_set(*old(ctx)) && last_component(library_path_of(*old(ctx))) is Some ==> {
            let lib = library_path_of(*old(ctx));
            let name = last_component(lib)->Some_0;
            let source = swift_source_of(*old(ctx));
            &&& *final(ctx) == (Ctx { force_cargo_recompile: true, ..*old(ctx) })
            &&& r is Ok
            &&& plan_view(r->Ok_0@).len() >= 2
            &&& plan_view(r->Ok_0@)[0] == (
                Act::GenerateBindings(bridge_files_of(*old(ctx)), joined(source, "generated"@), old(ctx).project_id@),
                "Failed to generate the Swift bindings"@,
                true,
            )
            &&& is_manifest_step(plan_view(r->Ok_0@)[1], *final(ctx), binary_name_of(opt_text(args.example), old(ctx).project_id@))
            &&& plan_view(r->Ok_0@).skip(2) == targets_plan(
                *final(ctx),
                args.release,
                opt_text(args.example),
                Some(swiftc_args_of(lib, joined(source, "bridging-header.h"@), args.release)),
                static_cargo_args_of(
                    args.release,
                    opt_text(args.example),
                    swift_link_args_of(name, joined(joined(lib, ".build"@), mode_dir(args.release))),
                ),
                xcode_swift_dir@,
                macos_sdk@,
                ios_sdk@,
                target_matrix(args.platform, args.architecture),
            )
        },
{
    let mut steps: Vec<Step> = Vec::new();
    let (swift_args, link) = match static_args(ctx, args.release)? {
        Some((swift_args, link)) => {
            let swift_ctx = SwiftCtx::new(ctx, args.release)?;
            let out = swift_ctx.generated_code_path.clone();
            let krate = ctx.project_id.clone();
            proof {
                assert(views(swift_ctx.bridges@) =~= bridge_files_of(*old(ctx)));
            }
            push_step(&mut steps, step(Action::GenerateBindings(swift_ctx.bridges, out, krate), "Failed to generate the Swift bindings", true));
            (Some(swift_args), link)
        },
        None => (None, Vec::new()),
    };
    proof {
        assert(views(link@) =~= if bridge_set(*old(ctx)) {
            swift_link_args_of(last_component(library_path_of(*old(ctx)))->Some_0, joined(joined(library_path_of(*old(ctx)), ".build"@), mode_dir(args.release)))
        } else {
            seq![]
        });
    }
    let statics = static_cargo_args(args.release, &args.example, link);
    let ghost head = plan_view(steps@);

    let bin = binary_name(&args.example, ctx.project_id.as_str());
    let map = info_plist(ctx, bin.as_str());
    push_step(&mut steps, manifest_step(ctx, &map));
    assert(is_manifest_step(plan_view(steps@)[head.len() as int], *ctx, bin@)) by {
        assert(entries_view(map.entries@) == manifest_entries(bin@, *ctx));
    }
    let ghost head2 = plan_view(steps@);

    let targets = gen_targets_list(args.platform, args.architecture);
    let ghost sa = if swift_args is Some { Some(views(swift_args->Some_0@)) } else { None };
    let mut i: usize = 0;
    while i < targets.len()
        invariant
            i <= targets@.len(),
            plan_view(steps@) == head2 + targets_plan(*ctx, args.release, opt_text(args.example), sa, views(statics@), xcode_swift_dir@, macos_sdk@, ios_sdk@, targets@.take(i as int)),
            sa == (if swift_args is Some { Some(views(swift_args->Some_0@)) } else { None }),
        decreases targets@.len() - i,
    {
        let (platform, architecture) = targets[i];
        let sdk = match platform {
            Platform::macOS => macos_sdk,
            Platform::iOS => ios_sdk,
        };
        let (target, _made) = target_steps(ctx, args, &swift_args, &statics, xcode_swift_dir, sdk, platform, architecture);
        append_steps(&mut steps, target);
        assert(targets@.take(i + 1).drop_last() =~= targets@.take(i as int));
        assert(plan_view(steps@) =~= head2 + targets_plan(*ctx, args.release, opt_text(args.example), sa, views(statics@), xcode_swift_dir@, macos_sdk@, ios_sdk@, targets@.take(i + 1)));
        i = i + 1;
    }
    assert(targets@.take(i as int) =~= targets@);
    assert(plan_view(steps@).skip(head2.len() as int) =~= targets_plan(*ctx, args.release, opt_text(args.example), sa, views(statics@), xcode_swift_dir@, macos_sdk@, ios_sdk@, targets@));
    Ok(steps)
}

} // verus!
