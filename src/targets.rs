use vstd::prelude::*;

use crate::context::{Architecture, Platform};

verus! {

/// The architectures selected by an optional choice: the one chosen, or both.
pub open spec fn architectures_of(a: Option<Architecture>) -> Seq<Architecture> {
    match a {
        Some(x) => seq![x],
        None => seq![Architecture::x86_64, Architecture::aarch64],
    }
}

/// The platforms selected by an optional choice: the one chosen, or both.
pub open spec fn platforms_of(p: Option<Platform>) -> Seq<Platform> {
    match p {
        Some(x) => seq![x],
        None => seq![Platform::iOS, Platform::macOS],
    }
}

/// Every pairing of `plats` with `archs`: architectures in the outer order,
/// platforms in the inner one.
pub open spec fn matrix(plats: Seq<Platform>, archs: Seq<Architecture>) -> Seq<(Platform, Architecture)>
    decreases archs.len(),
{
    if archs.len() == 0 {
        seq![]
    } else {
        matrix(plats, archs.drop_last()) + plats.map_values(|p: Platform| (p, archs.last()))
    }
}

/// The targets built for an optional platform and an optional architecture.
pub open spec fn target_matrix(p: Option<Platform>, a: Option<Architecture>) -> Seq<(Platform, Architecture)> {
    matrix(platforms_of(p), architectures_of(a))
}

/// Lists the targets to compile for: the chosen platform (or both) crossed
/// with the chosen architecture (or both).
pub fn gen_targets_list(platform: Option<Platform>, architecture: Option<Architecture>) -> (r: Vec<(Platform, Architecture)>)
    ensures
        r@ == target_matrix(platform, architecture),
{
    let architectures: Vec<Architecture> = match architecture {
        Some(a) => vec![a],
        None => vec![Architecture::x86_64, Architecture::aarch64],
    };
    let platforms: Vec<Platform> = match platform {
        Some(p) => vec![p],
        None => vec![Platform::iOS, Platform::macOS],
    };
    assert(architectures@ =~= architectures_of(architecture));
    assert(platforms@ =~= platforms_of(platform));

    let mut result: Vec<(Platform, Architecture)> = Vec::new();
    let mut ai: usize = 0;
    while ai < architectures.len()
        invariant
            ai <= architectures@.len(),
            result@ == matrix(platforms@, architectures@.take(ai as int)),
        decreases architectures@.len() - ai,
    {
        let a = architectures[ai];
        let ghost before = result@;
        let mut pi: usize = 0;
        while pi < platforms.len()
            invariant
                pi <= platforms@.len(),
                a == architectures@[ai as int],
                ai < architectures@.len(),
                result@ == before + platforms@.take(pi as int).map_values(|p: Platform| (p, a)),
            decreases platforms@.len() - pi,
        {
            result.push((platforms[pi], a));
            pi = pi + 1;
            assert(platforms@.take(pi as int).map_values(|p: Platform| (p, a))
                =~= platforms@.take(pi - 1).map_values(|p: Platform| (p, a)).push((platforms@[pi - 1], a)));
        }
        assert(platforms@.take(pi as int) =~= platforms@);
        assert(architectures@.take(ai + 1).drop_last() =~= architectures@.take(ai as int));
        ai = ai + 1;
    }
    assert(architectures@.take(ai as int) =~= architectures@);
    result
}

/// The length of a matrix is the product of the lengths of its two axes.
proof fn lemma_matrix_len(plats: Seq<Platform>, archs: Seq<Architecture>)
    ensures
        matrix(plats, archs).len() == plats.len() * archs.len(),
    decreases archs.len(),
{
    if archs.len() > 0 {
        lemma_matrix_len(plats, archs.drop_last());
        assert(plats.len() * (archs.len() - 1) + plats.len() == plats.len() * archs.len())
            by (nonlinear_arith);
    }
}

/// Each entry of a matrix pairs a member of each axis.
proof fn lemma_matrix_members(plats: Seq<Platform>, archs: Seq<Architecture>, i: int)
    requires
        0 <= i < matrix(plats, archs).len(),
    ensures
        plats.contains(matrix(plats, archs)[i].0),
        archs.contains(matrix(plats, archs)[i].1),
    decreases archs.len(),
{
    let prev = matrix(plats, archs.drop_last());
    if i < prev.len() {
        lemma_matrix_members(plats, archs.drop_last(), i);
        let k = choose|k: int| 0 <= k < archs.drop_last().len() && archs.drop_last()[k] == prev[i].1;
        assert(archs[k] == prev[i].1);
    } else {
        assert(plats[i - prev.len()] == matrix(plats, archs)[i].0);
        assert(archs[archs.len() - 1] == matrix(plats, archs)[i].1);
    }
}

/// A matrix over two axes without repeats has no repeats.
proof fn lemma_matrix_distinct(plats: Seq<Platform>, archs: Seq<Architecture>)
    requires
        plats.no_duplicates(),
        archs.no_duplicates(),
    ensures
        matrix(plats, archs).no_duplicates(),
    decreases archs.len(),
{
    if archs.len() > 0 {
        let front = archs.drop_last();
        assert(front.no_duplicates());
        lemma_matrix_distinct(plats, front);
        let prev = matrix(plats, front);
        let block = plats.map_values(|p: Platform| (p, archs.last()));
        let m = matrix(plats, archs);
        assert forall|i: int, j: int| 0 <= i < m.len() && 0 <= j < m.len() && i != j
            implies m[i] != m[j] by {
            if i < prev.len() && j >= prev.len() {
                lemma_matrix_members(plats, front, i);
                assert(m[j].1 == archs.last());
            } else if j < prev.len() && i >= prev.len() {
                lemma_matrix_members(plats, front, j);
                assert(m[i].1 == archs.last());
            } else if i >= prev.len() && j >= prev.len() {
                assert(m[i].0 == plats[i - prev.len()]);
                assert(m[j].0 == plats[j - prev.len()]);
            } else {
                assert(m[i] == prev[i] && m[j] == prev[j]);
            }
        }
    }
}

/// The target list has one entry for each pairing of a selected platform with a
/// selected architecture: as many entries as the two selections' sizes
/// multiplied, none repeated, and each pairing present.
pub proof fn lemma_target_matrix(p: Option<Platform>, a: Option<Architecture>)
    ensures
        target_matrix(p, a).len() == platforms_of(p).len() * architectures_of(a).len(),
        target_matrix(p, a).no_duplicates(),
        forall|i: int| 0 <= i < target_matrix(p, a).len() ==> {
            &&& platforms_of(p).contains(#[trigger] target_matrix(p, a)[i].0)
            &&& architectures_of(a).contains(target_matrix(p, a)[i].1)
        },
{
    lemma_matrix_len(platforms_of(p), architectures_of(a));
    lemma_matrix_distinct(platforms_of(p), architectures_of(a));
    assert forall|i: int| 0 <= i < target_matrix(p, a).len() implies {
        &&& platforms_of(p).contains(#[trigger] target_matrix(p, a)[i].0)
        &&& architectures_of(a).contains(target_matrix(p, a)[i].1)
    } by {
        lemma_matrix_members(platforms_of(p), architectures_of(a), i);
    }
}

} // verus!
