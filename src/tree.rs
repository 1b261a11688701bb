//! A model of the file tree that a bundle's assembly acts on, and what the
//! plans guarantee about it.
use vstd::prelude::*;

use crate::context::{Architecture, Ctx, Platform};
use crate::paths::joined;
use crate::plan::{
    app_name_of, app_plan, binary_dest, binary_name_of, built_binary, bundle_plan, compile_plan,
    msg_cargo_failed, msg_clean_failed, msg_swift_failed, plist_dest, Act, StepView,
};

verus! {

/// An entry of the file tree: a directory, or a file with its bytes and
/// whether it is executable.
pub enum Node {
    Dir,
    File(Seq<u8>, bool),
}

/// A file tree, by path.
pub type Tree = Map<Seq<char>, Node>;

/// `k` is `root` or lies below it.
pub open spec fn under(k: Seq<char>, root: Seq<char>) -> bool {
    k == root || (root + "/"@).is_prefix_of(k)
}

/// The part of a tree at and below `root`.
pub open spec fn subtree(t: Tree, root: Seq<char>) -> Tree {
    Map::new(|k: Seq<char>| t.contains_key(k) && under(k, root), |k: Seq<char>| t[k])
}

/// What an action of a bundle's assembly does to a tree where it succeeds. A
/// copy takes a file's bytes, and `chmod +x` makes a file executable; the
/// programs that compile and compress are not modelled and change nothing here.
pub open spec fn apply(t: Tree, a: Act) -> Tree {
    match a {
        Act::RemoveTree(p) => Map::new(|k: Seq<char>| t.contains_key(k) && !under(k, p), |k: Seq<char>| t[k]),
        Act::RemoveFile(p) => t.remove(p),
        Act::CreateDir(p) => t.insert(p, Node::Dir),
        Act::Copy(from, to) => if t.contains_key(from) && t[from] is File {
            t.insert(to, Node::File(t[from]->File_0, false))
        } else {
            t
        },
        Act::Run(prog, args, _) => if prog == "chmod"@ && args.len() == 2 && args[0] == "+x"@
            && t.contains_key(args[1]) && t[args[1]] is File {
            t.insert(args[1], Node::File(t[args[1]]->File_0, true))
        } else {
            t
        },
        _ => t,
    }
}

/// The tree after every step of a plan has run.
pub open spec fn run_all(t: Tree, plan: Seq<StepView>) -> Tree
    decreases plan.len(),
{
    if plan.len() == 0 {
        t
    } else {
        run_all(apply(t, plan[0].0), plan.skip(1))
    }
}

/// `a` acts only at or below `root`, reading only from `sources`.
pub open spec fn acts_within(a: Act, root: Seq<char>, sources: Set<Seq<char>>) -> bool {
    match a {
        Act::CreateDir(p) => under(p, root),
        Act::Copy(from, to) => sources.contains(from) && under(to, root),
        Act::Run(prog, args, _) => prog == "chmod"@ && args.len() == 2 && args[0] == "+x"@ && under(args[1], root),
        _ => false,
    }
}

/// Two trees hold the same at and below `root`, and at `sources`.
pub open spec fn agree(t1: Tree, t2: Tree, root: Seq<char>, sources: Set<Seq<char>>) -> bool {
    forall|k: Seq<char>| (under(k, root) || sources.contains(k)) ==> {
        &&& (#[trigger] t1.contains_key(k)) == t2.contains_key(k)
        &&& t1.contains_key(k) ==> t1[k] == t2[k]
    }
}

proof fn lemma_agree_step(t1: Tree, t2: Tree, a: Act, root: Seq<char>, sources: Set<Seq<char>>)
    requires
        agree(t1, t2, root, sources),
        acts_within(a, root, sources),
        forall|s: Seq<char>| #[trigger] sources.contains(s) ==> !under(s, root),
    ensures
        agree(apply(t1, a), apply(t2, a), root, sources),
{
    match a {
        Act::Copy(from, to) => {
            assert(under(from, root) || sources.contains(from));
        },
        Act::Run(prog, args, _) => {
            assert(under(args[1], root) || sources.contains(args[1]));
        },
        _ => {},
    }
}

proof fn lemma_agree_run(t1: Tree, t2: Tree, plan: Seq<StepView>, root: Seq<char>, sources: Set<Seq<char>>)
    requires
        agree(t1, t2, root, sources),
        forall|i: int| 0 <= i < plan.len() ==> acts_within(#[trigger] plan[i].0, root, sources),
        forall|s: Seq<char>| #[trigger] sources.contains(s) ==> !under(s, root),
    ensures
        agree(run_all(t1, plan), run_all(t2, plan), root, sources),
    decreases plan.len(),
{
    if plan.len() > 0 {
        assert(acts_within(plan[0].0, root, sources));
        lemma_agree_step(t1, t2, plan[0].0, root, sources);
        let rest = plan.skip(1);
        assert forall|i: int| 0 <= i < rest.len() implies acts_within(#[trigger] rest[i].0, root, sources) by {
            assert(rest[i] == plan[i + 1]);
        }
        lemma_agree_run(apply(t1, plan[0].0), apply(t2, plan[0].0), rest, root, sources);
    }
}

proof fn lemma_keeps_outside(t: Tree, plan: Seq<StepView>, root: Seq<char>, sources: Set<Seq<char>>)
    requires
        forall|i: int| 0 <= i < plan.len() ==> acts_within(#[trigger] plan[i].0, root, sources),
    ensures
        forall|k: Seq<char>| !under(k, root) ==> {
            &&& (#[trigger] run_all(t, plan).contains_key(k)) == t.contains_key(k)
            &&& t.contains_key(k) ==> run_all(t, plan)[k] == t[k]
        },
    decreases plan.len(),
{
    if plan.len() > 0 {
        let rest = plan.skip(1);
        assert forall|i: int| 0 <= i < rest.len() implies acts_within(#[trigger] rest[i].0, root, sources) by {
            assert(rest[i] == plan[i + 1]);
        }
        let a = plan[0].0;
        assert(acts_within(a, root, sources));
        let t1 = apply(t, a);
        lemma_keeps_outside(t1, rest, root, sources);
        assert forall|k: Seq<char>| !under(k, root) implies {
            &&& (#[trigger] run_all(t, plan).contains_key(k)) == t.contains_key(k)
            &&& t.contains_key(k) ==> run_all(t, plan)[k] == t[k]
        } by {
            assert(run_all(t, plan) == run_all(t1, rest));
            assert(run_all(t1, rest).contains_key(k) == t1.contains_key(k));
            match a {
                Act::Copy(from, to) => assert(k != to),
                Act::Run(prog, args, _) => assert(k != args[1]),
                Act::CreateDir(p) => assert(k != p),
                _ => {},
            }
        }
    }
}

proof fn lemma_joined_under(base: Seq<char>, part: Seq<char>)
    requires
        base.len() > 0,
        base.last() != '/',
        part.len() > 0,
        part[0] != '/',
    ensures
        under(joined(base, part), base),
        joined(base, part) == base + "/"@ + part,
        joined(base, part).last() != '/' <== part.last() != '/',
        joined(base, part).len() > 0,
{
    reveal_strlit("/");
    assert((base + "/"@).is_prefix_of(base + "/"@ + part)) by {
        assert((base + "/"@ + part).subrange(0, (base + "/"@).len() as int) =~= base + "/"@);
    }
    assert((base + "/"@ + part).last() == part.last());
}

proof fn lemma_under_trans(k: Seq<char>, mid: Seq<char>, root: Seq<char>)
    requires
        under(k, mid),
        under(mid, root),
    ensures
        under(k, root),
{
    reveal_strlit("/");
    if k != mid && mid != root {
        assert((root + "/"@).is_prefix_of(k)) by {
            assert forall|i: int| 0 <= i < (root + "/"@).len() implies (root + "/"@)[i] == k[i] by {
                assert((root + "/"@)[i] == mid[i]);
                assert((mid + "/"@)[i] == k[i]);
            }
        }
    } else if k == mid {
    }
}

/// Assembling a bundle twice in a row gives the same bundle as assembling it
/// once: nothing of the first run survives into the second, and the second
/// reads the same `Info.plist` and binary as the first. This holds where the
/// binary's name is a relative path and neither source lies in the bundle.
pub proof fn lemma_assembly_idempotent(
    t: Tree,
    dir: Seq<char>,
    target_dir: Seq<char>,
    id: Seq<char>,
    name: Seq<char>,
    triple: Seq<char>,
    release: bool,
    example: Option<Seq<char>>,
    macos: bool,
)
    requires
        binary_name_of(example, id).len() > 0,
        binary_name_of(example, id)[0] != '/',
        !under(joined(dir, "Info.plist"@), joined(dir, app_name_of(name, triple))),
        !under(built_binary(target_dir, triple, release, example, id), joined(dir, app_name_of(name, triple))),
    ensures
        ({
            let plan = app_plan(dir, target_dir, id, name, triple, release, example, macos);
            let app = joined(dir, app_name_of(name, triple));
            subtree(run_all(run_all(t, plan), plan), app) == subtree(run_all(t, plan), app)
        }),
{
    let plan = app_plan(dir, target_dir, id, name, triple, release, example, macos);
    let app = joined(dir, app_name_of(name, triple));
    let bin = binary_name_of(example, id);
    let src_plist = joined(dir, "Info.plist"@);
    let src_bin = built_binary(target_dir, triple, release, example, id);
    let sources = set![src_plist, src_bin];

    reveal_strlit(".app");
    reveal_strlit("Contents");
    reveal_strlit("MacOS");
    reveal_strlit("Info.plist");
    reveal_strlit("+x");
    reveal_strlit("chmod");
    let app_name = app_name_of(name, triple);
    assert(app_name.last() == 'p');
    assert(app.last() == 'p' && app.len() > 0) by {
        if app_name.len() > 0 && app_name[0] == '/' {
        } else if dir.len() == 0 || dir.last() == '/' {
            assert((dir + app_name).last() == app_name.last());
        } else {
            assert((dir + "/"@ + app_name).last() == app_name.last());
        }
    }
    let contents = joined(app, "Contents"@);
    lemma_joined_under(app, "Contents"@);
    lemma_joined_under(contents, "MacOS"@);
    lemma_under_trans(joined(contents, "MacOS"@), contents, app);
    lemma_joined_under(contents, "Info.plist"@);
    lemma_under_trans(joined(contents, "Info.plist"@), contents, app);
    lemma_joined_under(app, "Info.plist"@);
    if macos {
        assert(bin.len() > 0);
        lemma_joined_under(joined(contents, "MacOS"@), bin);
        lemma_under_trans(binary_dest(app, bin, true), joined(contents, "MacOS"@), app);
    } else {
        lemma_joined_under(app, bin);
    }
    assert(under(plist_dest(app, macos), app));
    assert(under(binary_dest(app, bin, macos), app));

    // Every step after the first acts within the bundle.
    let rest = plan.skip(1);
    assert forall|i: int| 0 <= i < rest.len() implies acts_within(#[trigger] rest[i].0, app, sources) by {
        assert(rest[i] == plan[i + 1]);
        assert(sources.contains(src_plist));
        assert(sources.contains(src_bin));
    }
    assert forall|s: Seq<char>| #[trigger] sources.contains(s) implies !under(s, app) by {}

    let once = run_all(t, plan);
    assert(plan[0].0 == Act::RemoveTree(app));
    let cleared = apply(t, plan[0].0);
    assert(run_all(t, plan) == run_all(cleared, rest));
    lemma_keeps_outside(cleared, rest, app, sources);
    // The first run leaves the sources as they were.
    let cleared2 = apply(once, plan[0].0);
    assert(agree(cleared, cleared2, app, sources)) by {
        assert forall|k: Seq<char>| (under(k, app) || sources.contains(k)) implies {
            &&& (#[trigger] cleared.contains_key(k)) == cleared2.contains_key(k)
            &&& cleared.contains_key(k) ==> cleared[k] == cleared2[k]
        } by {
            if sources.contains(k) {
                assert(!under(k, app));
            }
        }
    }
    lemma_agree_run(cleared, cleared2, rest, app, sources);
    assert(run_all(once, plan) == run_all(cleared2, rest));
    let twice = run_all(cleared2, rest);
    assert(once == run_all(cleared, rest));
    assert forall|k: Seq<char>| under(k, app) implies {
        &&& (#[trigger] twice.contains_key(k)) == once.contains_key(k)
        &&& once.contains_key(k) ==> twice[k] == once[k]
    } by {
        assert(run_all(cleared, rest).contains_key(k) == run_all(cleared2, rest).contains_key(k));
    }
    assert(subtree(run_all(once, plan), app) =~= subtree(once, app));
}

/// The bundle's binary lies at `Contents/MacOS/<name>` in a macOS bundle and at
/// `<name>` in an iOS bundle, for a bundle path that does not end with `/` and
/// a binary name that is a relative path.
pub proof fn lemma_binary_location(app: Seq<char>, bin: Seq<char>)
    requires
        app.len() > 0,
        app.last() != '/',
        bin.len() > 0,
        bin[0] != '/',
    ensures
        binary_dest(app, bin, true) == app + "/Contents/MacOS/"@ + bin,
        binary_dest(app, bin, false) == app + "/"@ + bin,
        plist_dest(app, true) == app + "/Contents/Info.plist"@,
        plist_dest(app, false) == app + "/Info.plist"@,
{
    reveal_strlit("Contents");
    reveal_strlit("MacOS");
    reveal_strlit("Info.plist");
    reveal_strlit("/Contents/MacOS/");
    reveal_strlit("/Contents/Info.plist");
    reveal_strlit("/Info.plist");
    reveal_strlit("/");
    let contents = joined(app, "Contents"@);
    lemma_joined_under(app, "Contents"@);
    lemma_joined_under(contents, "MacOS"@);
    lemma_joined_under(joined(contents, "MacOS"@), bin);
    lemma_joined_under(contents, "Info.plist"@);
    lemma_joined_under(app, bin);
    lemma_joined_under(app, "Info.plist"@);
    assert(binary_dest(app, bin, true) =~= app + "/Contents/MacOS/"@ + bin);
    assert(plist_dest(app, true) =~= app + "/Contents/Info.plist"@);
    assert(plist_dest(app, false) =~= app + "/Info.plist"@);
}

/// Where the Rust build of a target fails, nothing has touched its bundle or
/// archive: every step up to and including it runs a compiler, and the report
/// names that stage, which no earlier step reports.
pub proof fn lemma_compile_failure_stops(
    ctx: Ctx,
    release: bool,
    example: Option<Seq<char>>,
    swift_args: Option<Seq<Seq<char>>>,
    statics: Seq<Seq<char>>,
    xcode_swift_dir: Seq<char>,
    sdk: Seq<char>,
    p: Platform,
    a: Architecture,
)
    ensures
        ({
            let compile = compile_plan(ctx, release, swift_args, statics, xcode_swift_dir, sdk, p, a);
            let plan = compile + bundle_plan(ctx, release, example, p, a);
            let k = compile.len() - 1;
            &&& 0 <= k < plan.len()
            &&& plan[k].1 == msg_cargo_failed()
            &&& plan[k].0 matches Act::Run(prog, _, _) && prog == "cargo"@
            &&& forall|j: int| 0 <= j <= k ==> {
                &&& (#[trigger] plan[j]).0 matches Act::Run(prog, _, _) && (prog == "cargo"@ || prog == "swift"@)
                &&& j < k ==> plan[j].1 != msg_cargo_failed()
            }
        }),
{
    reveal_strlit("Cargo failed to compile the project! Aborting.");
    reveal_strlit("Failed to clean old build files.");
    reveal_strlit("Swift failed to compile the project! Aborting.");
    assert(msg_clean_failed()[0] != msg_cargo_failed()[0]);
    assert(msg_swift_failed()[0] != msg_cargo_failed()[0]);
    let compile = compile_plan(ctx, release, swift_args, statics, xcode_swift_dir, sdk, p, a);
    let plan = compile + bundle_plan(ctx, release, example, p, a);
    assert forall|j: int| 0 <= j < compile.len() implies plan[j] == compile[j] by {}
}

} // verus!
