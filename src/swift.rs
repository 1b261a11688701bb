//! Linking a Swift package into the Rust binary.
use vstd::prelude::*;

use crate::context::{Architecture, Ctx, Platform};
use crate::paths::{file_name, join_path, joined, last_component};
use crate::text::{contains_seq, contains_text, replace_text, replaced, views};

verus! {

/// Paths of the Swift package that is linked into the binary.
#[derive(Debug, Clone, PartialEq, Eq)]
pub struct SwiftCtx {
    /// The name of the Swift library to statically compile.
    pub library_name: String,
    /// The path to the Swift library to statically compile.
    pub library_path: String,
    /// The path to the Swift library's source code.
    pub source_path: String,
    /// The path to the Swift library's build files.
    pub build_path: String,
    /// The path to the folder of the generated bindings.
    pub generated_code_path: String,
    /// The path to the bridging header.
    pub bridging_header_path: String,
    /// The files that declare the bridges, from the project's root.
    pub bridges: Vec<String>,
}

/// The build mode's directory name.
pub open spec fn mode_dir(release_mode: bool) -> Seq<char> {
    if release_mode { "release"@ } else { "debug"@ }
}

/// `s` holds the paths of the Swift package at `library` (as written in
/// `Cargo.toml`) of the project rooted at `root`, whose last component is
/// `name`, with the bridge files `bridges`.
pub open spec fn swift_paths(s: SwiftCtx, root: Seq<char>, library: Seq<char>, name: Seq<char>, bridges: Seq<Seq<char>>, release_mode: bool) -> bool {
    let library_path = joined(root, library);
    let source_path = joined(joined(library_path, "Sources"@), name);
    &&& s.library_name@ == name
    &&& s.library_path@ == library_path
    &&& s.source_path@ == source_path
    &&& s.build_path@ == joined(joined(library_path, ".build"@), mode_dir(release_mode))
    &&& s.generated_code_path@ == joined(source_path, "generated"@)
    &&& s.bridging_header_path@ == joined(source_path, "bridging-header.h"@)
    &&& s.bridges@.len() == bridges.len()
    &&& forall|i: int| 0 <= i < bridges.len() ==> (#[trigger] s.bridges@[i])@ == joined(root, bridges[i])
}

impl SwiftCtx {
    /// The Swift package's paths, from the `swift-library` and `swift-bridges`
    /// settings.
    pub fn new(ctx: &Ctx, release_mode: bool) -> (r: Result<SwiftCtx, String>)
        ensures
            ctx.cfg is None ==> r is Err && r->Err_0@ == "Failed to get configuration!"@,
            ctx.cfg is Some ==> {
                let c = ctx.cfg->Some_0;
                if c.swift_bridges is None {
                    r is Err && r->Err_0@ == "No `swift-bridges` setting set!"@
                } else if c.swift_library is None {
                    r is Err && r->Err_0@ == "No `swift-library` setting set!"@
                } else {
                    let library = c.swift_library->Some_0@;
                    match last_component(joined(ctx.root_dir@, library)) {
                        None => r is Err && r->Err_0@ == "Invalid `swift-library` setting: the path names no folder."@,
                        Some(name) => r is Ok && swift_paths(
                            r->Ok_0,
                            ctx.root_dir@,
                            library,
                            name,
                            views(c.swift_bridges->Some_0@),
                            release_mode,
                        ),
                    }
                }
            },
    {
        let cfg = match &ctx.cfg {
            Some(cfg) => cfg,
            None => return Err(String::from_str("Failed to get configuration!")),
        };
        let bridge_files = match &cfg.swift_bridges {
            Some(b) => b,
            None => return Err(String::from_str("No `swift-bridges` setting set!")),
        };
        let swift_library_path = match &cfg.swift_library {
            Some(l) => l,
            None => return Err(String::from_str("No `swift-library` setting set!")),
        };
        let mut bridges: Vec<String> = Vec::new();
        let mut i: usize = 0;
        while i < bridge_files.len()
            invariant
                i <= bridge_files@.len(),
                bridges@.len() == i,
                forall|j: int| 0 <= j < i ==> (#[trigger] bridges@[j])@ == joined(ctx.root_dir@, bridge_files@[j]@),
            decreases bridge_files@.len() - i,
        {
            bridges.push(join_path(ctx.root_dir.as_str(), bridge_files[i].as_str()));
            i = i + 1;
        }
        let library_path = join_path(ctx.root_dir.as_str(), swift_library_path.as_str());
        let library_name = match file_name(library_path.as_str()) {
            Some(n) => n,
            None => return Err(String::from_str("Invalid `swift-library` setting: the path names no folder.")),
        };
        let sources = join_path(library_path.as_str(), "Sources");
        let source_path = join_path(sources.as_str(), library_name.as_str());
        let build_root = join_path(library_path.as_str(), ".build");
        let build_path = join_path(build_root.as_str(), if release_mode { "release" } else { "debug" });
        let generated_code_path = join_path(source_path.as_str(), "generated");
        let bridging_header_path = join_path(source_path.as_str(), "bridging-header.h");
        Ok(SwiftCtx {
            library_name,
            library_path,
            source_path,
            build_path,
            generated_code_path,
            bridging_header_path,
            bridges,
        })
    }
}

/// The arguments to `swift build` that do not depend on the target.
pub open spec fn swiftc_args_of(library_path: Seq<char>, bridging_header: Seq<char>, release_mode: bool) -> Seq<Seq<char>> {
    seq!["--package-path"@, library_path, "-Xswiftc"@, "-static"@, "-Xswiftc"@, "-import-objc-header"@, "-Xswiftc"@, bridging_header]
        + if release_mode { seq!["-c"@, "release"@] } else { seq![] }
}

/// Arguments to `swift build` that don't depend on the target triple.
pub fn static_swiftc_args(swift_ctx: &SwiftCtx, release_mode: bool) -> (r: Vec<String>)
    ensures
        views(r@) == swiftc_args_of(swift_ctx.library_path@, swift_ctx.bridging_header_path@, release_mode),
{
    let mut swift_args = vec![
        String::from_str("--package-path"),
        swift_ctx.library_path.clone(),
        String::from_str("-Xswiftc"),
        String::from_str("-static"),
        String::from_str("-Xswiftc"),
        String::from_str("-import-objc-header"),
        String::from_str("-Xswiftc"),
        swift_ctx.bridging_header_path.clone(),
    ];
    if release_mode {
        swift_args.push(String::from_str("-c"));
        swift_args.push(String::from_str("release"));
    }
    assert(views(swift_args@) =~= swiftc_args_of(swift_ctx.library_path@, swift_ctx.bridging_header_path@, release_mode));
    swift_args
}

/// The arguments that make Cargo link the Swift library statically.
pub open spec fn swift_link_args_of(library_name: Seq<char>, build_path: Seq<char>) -> Seq<Seq<char>> {
    seq!["--"@, "-l"@, "static="@ + library_name, "-L"@, build_path, "-L"@, "/usr/lib/swift"@]
}

/// Arguments to Cargo that link the Swift library into the binary.
pub fn swift_link_args(swift_ctx: &SwiftCtx) -> (r: Vec<String>)
    ensures
        views(r@) == swift_link_args_of(swift_ctx.library_name@, swift_ctx.build_path@),
{
    let mut link = String::from_str("static=");
    link.append(swift_ctx.library_name.as_str());
    let r = vec![
        String::from_str("--"),
        String::from_str("-l"),
        link,
        String::from_str("-L"),
        swift_ctx.build_path.clone(),
        String::from_str("-L"),
        String::from_str("/usr/lib/swift"),
    ];
    assert(views(r@) =~= swift_link_args_of(swift_ctx.library_name@, swift_ctx.build_path@));
    r
}

/// Whether the tool's settings name exactly one of `swift-bridges` and
/// `swift-library`.
pub open spec fn bridge_half_set(ctx: Ctx) -> bool {
    ctx.cfg is Some && ((ctx.cfg->Some_0.swift_bridges is Some) != (ctx.cfg->Some_0.swift_library is Some))
}

/// Whether the tool's settings name both `swift-bridges` and `swift-library`.
pub open spec fn bridge_set(ctx: Ctx) -> bool {
    ctx.cfg is Some && ctx.cfg->Some_0.swift_bridges is Some && ctx.cfg->Some_0.swift_library is Some
}

/// Whether the project links a Swift package: whether its settings name both
/// `swift-bridges` and `swift-library`.
pub fn links_swift(ctx: &Ctx) -> (r: bool)
    ensures
        r == bridge_set(*ctx),
{
    match &ctx.cfg {
        Some(c) => c.swift_bridges.is_some() && c.swift_library.is_some(),
        None => false,
    }
}

/// The arguments to `swift build` and to Cargo that do not depend on the
/// target, where the project links a Swift package; `None` where it does not.
/// Linking one makes each target's Rust build start clean, so that the binary
/// is linked against the fresh Swift library.
pub fn static_args(ctx: &mut Ctx, release_mode: bool) -> (r: Result<Option<(Vec<String>, Vec<String>)>, String>)
    ensures
        bridge_half_set(*old(ctx)) ==> r is Err
            && r->Err_0@ == "Incomplete Swift setup: `swift-bridges` and `swift-library` must be set together."@,
        !bridge_half_set(*old(ctx)) && !bridge_set(*old(ctx)) ==> r == Ok::<Option<(Vec<String>, Vec<String>)>, String>(None),
        bridge_set(*old(ctx)) ==> {
            let c = old(ctx).cfg->Some_0;
            let library = c.swift_library->Some_0@;
            match last_component(joined(old(ctx).root_dir@, library)) {
                None => r is Err && r->Err_0@ == "Invalid `swift-library` setting: the path names no folder."@,
                Some(name) => {
                    let library_path = joined(old(ctx).root_dir@, library);
                    let source_path = joined(joined(library_path, "Sources"@), name);
                    &&& r is Ok && r->Ok_0 is Some
                    &&& views(r->Ok_0->Some_0.0@) == swiftc_args_of(
                        library_path,
                        joined(source_path, "bridging-header.h"@),
                        release_mode,
                    )
                    &&& views(r->Ok_0->Some_0.1@) == swift_link_args_of(
                        name,
                        joined(joined(library_path, ".build"@), mode_dir(release_mode)),
                    )
                }
            }
        },
        r matches Ok(Some(_)) ==> *final(ctx) == (Ctx { force_cargo_recompile: true, ..*old(ctx) }),
        !(r matches Ok(Some(_))) ==> *final(ctx) == *old(ctx),
{
    let (has_bridges, has_library) = match &ctx.cfg {
        Some(c) => (c.swift_bridges.is_some(), c.swift_library.is_some()),
        None => (false, false),
    };
    if has_bridges != has_library {
        return Err(String::from_str("Incomplete Swift setup: `swift-bridges` and `swift-library` must be set together."));
    }
    if !has_bridges {
        return Ok(None);
    }
    let swift_ctx = SwiftCtx::new(ctx, release_mode)?;
    let swift_args = static_swiftc_args(&swift_ctx, release_mode);
    let cargo_args = swift_link_args(&swift_ctx);
    ctx.force_cargo_recompile = true;
    Ok(Some((swift_args, cargo_args)))
}

/// Swift's name for an architecture.
pub open spec fn swift_arch_text(a: Architecture) -> Seq<char> {
    match a {
        Architecture::x86_64 => "x86_64"@,
        Architecture::aarch64 => "arm64"@,
    }
}

/// Swift's name for a platform, with its minimum version.
pub open spec fn swift_os_text(p: Platform) -> Seq<char> {
    match p {
        Platform::iOS => "ios14"@,
        Platform::macOS => "macosx11"@,
    }
}

/// Swift's target triple for a platform and an architecture.
pub open spec fn swift_triple(p: Platform, a: Architecture) -> Seq<char> {
    swift_arch_text(a) + "-apple-"@ + swift_os_text(p)
}

/// Get Swift's target triple for a platform and architecture. Swift names
/// targets otherwise than Rust does.
pub fn get_target_triple(platform: Platform, architecture: Architecture) -> (r: String)
    ensures
        r@ == swift_triple(platform, architecture),
{
    let mut r = String::from_str(match architecture {
        Architecture::x86_64 => "x86_64",
        Architecture::aarch64 => "arm64",
    });
    r.append("-apple-");
    r.append(match platform {
        Platform::iOS => "ios14",
        Platform::macOS => "macosx11",
    });
    r
}

/// The name of a platform's SDK, as `xcrun` and the Xcode toolchain name it.
pub open spec fn sdk_text(p: Platform) -> Seq<char> {
    match p {
        Platform::macOS => "macosx"@,
        Platform::iOS => "iphoneos"@,
    }
}

/// The name of a platform's SDK.
pub fn sdk_name(platform: Platform) -> (r: &'static str)
    ensures
        r@ == sdk_text(platform),
{
    match platform {
        Platform::macOS => "macosx",
        Platform::iOS => "iphoneos",
    }
}

/// Swift's target triple for a Rust target triple: `aarch64` becomes `arm64`,
/// `ios` becomes `ios14` and `darwin` becomes `macosx11`.
pub open spec fn swift_triple_of_rust(t: Seq<char>) -> Seq<char> {
    replaced(replaced(replaced(t, "aarch64"@, "arm64"@), "ios"@, "ios14"@), "darwin"@, "macosx11"@)
}

/// Maps a Rust target triple to Swift's triple for the same target.
pub fn swift_target_of(rust_target: &str) -> (r: String)
    ensures
        r@ == swift_triple_of_rust(rust_target@),
{
    proof {
        reveal_strlit("aarch64");
        reveal_strlit("ios");
        reveal_strlit("darwin");
    }
    let a = replace_text(rust_target, "aarch64", "arm64");
    let b = replace_text(a.as_str(), "ios", "ios14");
    replace_text(b.as_str(), "darwin", "macosx11")
}

/// The platform that a Swift target triple is for: iOS where it names `ios`,
/// else macOS.
pub fn platform_of_swift_target(target: &str) -> (r: Platform)
    ensures
        r == (if contains_seq(target@, "ios"@) { Platform::iOS } else { Platform::macOS }),
{
    if contains_text(target, "ios") { Platform::iOS } else { Platform::macOS }
}

/// The arguments to `swift build` for one target.
pub open spec fn swift_build_args_of(target: Seq<char>, sdk: Seq<char>, static_args: Seq<Seq<char>>) -> Seq<Seq<char>> {
    seq!["build"@, "-Xswiftc"@, "-target"@, "-Xswiftc"@, target, "--sdk"@, sdk] + static_args
}

/// The arguments to `swift build` for the target `target`, whose SDK is at `sdk`.
pub fn swift_build_args(target: &str, sdk: &str, static_args: &Vec<String>) -> (r: Vec<String>)
    ensures
        views(r@) == swift_build_args_of(target@, sdk@, views(static_args@)),
{
    let mut r = vec![
        String::from_str("build"),
        String::from_str("-Xswiftc"),
        String::from_str("-target"),
        String::from_str("-Xswiftc"),
        String::from_str(target),
        String::from_str("--sdk"),
        String::from_str(sdk),
    ];
    let mut i: usize = 0;
    while i < static_args.len()
        invariant
            i <= static_args@.len(),
            views(r@) == swift_build_args_of(target@, sdk@, views(static_args@.take(i as int))),
        decreases static_args@.len() - i,
    {
        let ghost before = r@;
        r.push(static_args[i].clone());
        assert(views(r@) =~= views(before).push(static_args@[i as int]@));
        assert(views(static_args@.take(i + 1)) =~= views(static_args@.take(i as int)).push(static_args@[i as int]@));
        assert(views(r@) =~= swift_build_args_of(target@, sdk@, views(static_args@.take(i + 1))));
        i = i + 1;
    }
    assert(static_args@.take(i as int) =~= static_args@);
    r
}

/// The lines that tell Cargo to link the Swift library statically, and where
/// to search for it and for Swift's own libraries.
pub open spec fn link_directives_of(library_name: Seq<char>, build_path: Seq<char>, xcode_swift_dir: Seq<char>, p: Platform) -> Seq<Seq<char>> {
    seq![
        "cargo:rustc-link-lib=static="@ + library_name,
        "cargo:rustc-link-search="@ + build_path,
        "cargo:rustc-link-search="@ + joined(xcode_swift_dir, sdk_text(p)),
        "cargo:rustc-link-search=/usr/lib/swift"@,
    ]
}

/// The instructions that a build script prints to link the Swift package into
/// the crate being built for `platform`.
pub fn link_directives(swift_ctx: &SwiftCtx, xcode_swift_dir: &str, platform: Platform) -> (r: Vec<String>)
    ensures
        views(r@) == link_directives_of(swift_ctx.library_name@, swift_ctx.build_path@, xcode_swift_dir@, platform),
{
    let mut lib = String::from_str("cargo:rustc-link-lib=static=");
    lib.append(swift_ctx.library_name.as_str());
    let mut build = String::from_str("cargo:rustc-link-search=");
    build.append(swift_ctx.build_path.as_str());
    let mut sdk_dir = String::from_str("cargo:rustc-link-search=");
    let platform_dir = join_path(xcode_swift_dir, sdk_name(platform));
    sdk_dir.append(platform_dir.as_str());
    let r = vec![lib, build, sdk_dir, String::from_str("cargo:rustc-link-search=/usr/lib/swift")];
    assert(views(r@) =~= link_directives_of(swift_ctx.library_name@, swift_ctx.build_path@, xcode_swift_dir@, platform));
    r
}

} // verus!
