//! The bundle's `Info.plist`: a set of string entries, written as a
//! property list.
use vstd::prelude::*;

use crate::context::Ctx;

verus! {

/// The opening portion of every `Info.plist`.
pub const PLIST_OPENING: &'static str = "
<?xml version=\"1.0\" encoding=\"UTF-8\"?>
<!DOCTYPE plist PUBLIC \"-//Apple//DTD PLIST 1.0//EN\" \"http://www.apple.com/DTDs/PropertyList-1.0.dtd\">
<plist version=\"1.0\">
<dict>
";

/// The closing portion of every `Info.plist`.
pub const PLIST_CLOSING: &'static str = "
</dict>
</plist>
";

/// The entries of an `Info.plist`, each key at most once.
#[derive(Debug, Clone, PartialEq, Eq)]
pub struct InfoPlist {
    pub entries: Vec<(String, String)>,
}

/// No key appears twice in `entries`.
pub open spec fn keys_distinct(entries: Seq<(String, String)>) -> bool {
    forall|i: int, j: int| 0 <= i < j < entries.len() ==> entries[i].0@ != entries[j].0@
}

/// The mapping that a list of entries with distinct keys stands for.
pub open spec fn entries_view(entries: Seq<(String, String)>) -> Map<Seq<char>, Seq<char>> {
    Map::new(
        |k: Seq<char>| exists|i: int| 0 <= i < entries.len() && entries[i].0@ == k,
        |k: Seq<char>| entries[choose|i: int| 0 <= i < entries.len() && entries[i].0@ == k].1@,
    )
}

/// The key/value pairs that a list of entries holds, in no order.
pub open spec fn pair_set(entries: Seq<(String, String)>) -> Set<(Seq<char>, Seq<char>)> {
    Set::new(|p: (Seq<char>, Seq<char>)| exists|i: int| 0 <= i < entries.len() && (entries[i].0@, entries[i].1@) == p)
}

/// The `<key>`/`<string>` lines of `entries`, in order. Values are written as
/// they are, with no escaping.
pub open spec fn pairs_text(entries: Seq<(String, String)>) -> Seq<char>
    decreases entries.len(),
{
    if entries.len() == 0 {
        seq![]
    } else {
        let (k, v) = entries.last();
        pairs_text(entries.drop_last()) + "<key>"@ + k@ + "</key>\n"@ + "<string>"@ + v@ + "</string>\n"@
    }
}

/// The text of an `Info.plist` with these entries.
pub open spec fn plist_text(entries: Seq<(String, String)>) -> Seq<char> {
    PLIST_OPENING@ + pairs_text(entries) + PLIST_CLOSING@
}

impl InfoPlist {
    pub open spec fn wf(&self) -> bool {
        keys_distinct(self.entries@)
    }

    pub open spec fn view(&self) -> Map<Seq<char>, Seq<char>> {
        entries_view(self.entries@)
    }

    /// An `Info.plist` with no entries.
    pub fn new() -> (r: InfoPlist)
        ensures
            r.wf(),
            r.view() == Map::<Seq<char>, Seq<char>>::empty(),
    {
        let r = InfoPlist { entries: Vec::new() };
        assert(r.view() =~= Map::<Seq<char>, Seq<char>>::empty());
        r
    }

    /// Sets `key` to `value`, replacing any earlier value of `key`.
    pub fn insert(&mut self, key: String, value: String)
        requires
            old(self).wf(),
        ensures
            final(self).wf(),
            final(self).view() == old(self).view().insert(key@, value@),
    {
        let ghost before = self.entries@;
        let ghost kv = key@;
        let ghost vv = value@;
        let mut i: usize = 0;
        while i < self.entries.len()
            invariant
                i <= self.entries@.len(),
                self.entries@ == before,
                before == old(self).entries@,
                keys_distinct(before),
                forall|j: int| 0 <= j < i ==> (#[trigger] before[j]).0@ != kv,
                kv == key@,
                vv == value@,
            decreases self.entries@.len() - i,
        {
            if self.entries[i].0 == key {
                assert(self.entries[i as int].0@ == kv);
                let ghost old_view = entries_view(before);
                self.entries.set(i, (key, value));
                proof {
                    let after = self.entries@;
                    assert forall|a: int, b: int| 0 <= a < b < after.len() implies after[a].0@ != after[b].0@ by {
                        assert(before[a].0@ != before[b].0@);
                    }
                    assert forall|k: Seq<char>| #[trigger] entries_view(after).contains_key(k) <==> old_view.insert(kv, vv).contains_key(k) by {
                        if old_view.contains_key(k) {
                            let j = choose|j: int| 0 <= j < before.len() && before[j].0@ == k;
                            assert(after[j].0@ == k);
                        }
                        if entries_view(after).contains_key(k) {
                            let j = choose|j: int| 0 <= j < after.len() && after[j].0@ == k;
                            if j != i {
                                assert(before[j].0@ == k);
                            }
                        }
                    }
                    assert forall|k: Seq<char>| #[trigger] entries_view(after).contains_key(k) implies entries_view(after)[k] == old_view.insert(kv, vv)[k] by {
                        let j = choose|j: int| 0 <= j < after.len() && after[j].0@ == k;
                        if j != i {
                            let j2 = choose|j2: int| 0 <= j2 < before.len() && before[j2].0@ == k;
                            assert(before[j].0@ == k);
                            assert(j2 == j);
                        }
                    }
                    assert(entries_view(after) =~= old_view.insert(kv, vv));
                }
                return;
            }
            i = i + 1;
        }
        self.entries.push((key, value));
        proof {
            let after = self.entries@;
            let old_view = entries_view(before);
            assert forall|a: int, b: int| 0 <= a < b < after.len() implies after[a].0@ != after[b].0@ by {
                if b < before.len() {
                    assert(before[a].0@ != before[b].0@);
                } else {
                    assert(before[a].0@ != kv);
                }
            }
            assert forall|k: Seq<char>| #[trigger] entries_view(after).contains_key(k) <==> old_view.insert(kv, vv).contains_key(k) by {
                if old_view.contains_key(k) {
                    let j = choose|j: int| 0 <= j < before.len() && before[j].0@ == k;
                    assert(after[j].0@ == k);
                }
                if k == kv {
                    assert(after[before.len() as int].0@ == k);
                }
                if entries_view(after).contains_key(k) {
                    let j = choose|j: int| 0 <= j < after.len() && after[j].0@ == k;
                    if j < before.len() {
                        assert(before[j].0@ == k);
                    }
                }
            }
            assert forall|k: Seq<char>| #[trigger] entries_view(after).contains_key(k) implies entries_view(after)[k] == old_view.insert(kv, vv)[k] by {
                let j = choose|j: int| 0 <= j < after.len() && after[j].0@ == k;
                if j < before.len() {
                    let j2 = choose|j2: int| 0 <= j2 < before.len() && before[j2].0@ == k;
                    assert(before[j].0@ == k);
                    assert(j2 == j);
                    assert(k != kv);
                } else {
                    assert(k == kv);
                }
            }
            assert(entries_view(after) =~= old_view.insert(kv, vv));
        }
    }
}

/// Writes the text of an `Info.plist`: the opening, one `<key>` and one
/// `<string>` line for each entry, and the closing.
pub fn gen_info_plist(map: &InfoPlist) -> (r: String)
    ensures
        r@ == plist_text(map.entries@),
{
    let mut buffer = String::from_str(PLIST_OPENING);
    let mut i: usize = 0;
    while i < map.entries.len()
        invariant
            i <= map.entries@.len(),
            buffer@ == PLIST_OPENING@ + pairs_text(map.entries@.take(i as int)),
        decreases map.entries@.len() - i,
    {
        let (key, value) = (&map.entries[i].0, &map.entries[i].1);
        buffer.append("<key>");
        buffer.append(key.as_str());
        buffer.append("</key>\n");
        buffer.append("<string>");
        buffer.append(value.as_str());
        buffer.append("</string>\n");
        assert(map.entries@.take(i + 1).drop_last() =~= map.entries@.take(i as int));
        i = i + 1;
    }
    assert(map.entries@.take(i as int) =~= map.entries@);
    buffer.append(PLIST_CLOSING);
    buffer
}

/// The entries that every bundle's `Info.plist` starts with.
pub open spec fn mandatory_entries(binary: Seq<char>, id: Seq<char>, name: Seq<char>, version: Seq<char>) -> Map<Seq<char>, Seq<char>> {
    Map::empty()
        .insert("CFBundleExecutable"@, binary)
        .insert("CFBundleIdentifier"@, "com."@ + id)
        .insert("CFBundleName"@, name)
        .insert("CFBundleVersion"@, version)
        .insert("CFBundleShortVersionString"@, version)
        .insert("CFBundlePackageType"@, "APPL"@)
}

/// `base` with each of `props` set in turn, later ones winning.
pub open spec fn with_overrides(base: Map<Seq<char>, Seq<char>>, props: Seq<(String, String)>) -> Map<Seq<char>, Seq<char>>
    decreases props.len(),
{
    if props.len() == 0 {
        base
    } else {
        with_overrides(base, props.drop_last()).insert(props.last().0@, props.last().1@)
    }
}

/// The `Info.plist` overrides that a context's settings give.
pub open spec fn overrides_of(ctx: Ctx) -> Seq<(String, String)> {
    match ctx.cfg {
        Some(c) => c.properties@,
        None => seq![],
    }
}

/// The entries of the `Info.plist` of a bundle whose executable is `binary`.
pub open spec fn manifest_entries(binary: Seq<char>, ctx: Ctx) -> Map<Seq<char>, Seq<char>> {
    with_overrides(
        mandatory_entries(binary, ctx.project_id@, ctx.project_name@, ctx.project_version@),
        overrides_of(ctx),
    )
}

/// Collects the `Info.plist` entries of the bundle whose executable is
/// `binary_name`: the computed ones first, then the overrides of `Cargo.toml`,
/// so that an override replaces a computed entry with the same key.
pub fn info_plist(ctx: &Ctx, binary_name: &str) -> (r: InfoPlist)
    ensures
        r.wf(),
        r.view() == manifest_entries(binary_name@, *ctx),
{
    let mut map = InfoPlist::new();
    map.insert(String::from_str("CFBundleExecutable"), String::from_str(binary_name));
    let mut identifier = String::from_str("com.");
    identifier.append(ctx.project_id.as_str());
    map.insert(String::from_str("CFBundleIdentifier"), identifier);
    map.insert(String::from_str("CFBundleName"), ctx.project_name.clone());
    map.insert(String::from_str("CFBundleVersion"), ctx.project_version.clone());
    map.insert(String::from_str("CFBundleShortVersionString"), ctx.project_version.clone());
    map.insert(String::from_str("CFBundlePackageType"), String::from_str("APPL"));
    let ghost base = mandatory_entries(binary_name@, ctx.project_id@, ctx.project_name@, ctx.project_version@);
    assert(map.view() =~= base);
    match &ctx.cfg {
        Some(c) => {
            let props = &c.properties;
            let mut i: usize = 0;
            while i < props.len()
                invariant
                    i <= props@.len(),
                    map.wf(),
                    map.view() == with_overrides(base, props@.take(i as int)),
                decreases props@.len() - i,
            {
                map.insert(props[i].0.clone(), props[i].1.clone());
                assert(props@.take(i + 1).drop_last() =~= props@.take(i as int));
                i = i + 1;
            }
            assert(props@.take(i as int) =~= props@);
        },
        None => {},
    }
    map
}

/// An entry set last stays.
proof fn lemma_with_overrides_keeps(base: Map<Seq<char>, Seq<char>>, props: Seq<(String, String)>, i: int)
    requires
        0 <= i < props.len(),
        forall|j: int| i < j < props.len() ==> (#[trigger] props[j]).0@ != props[i].0@,
    ensures
        with_overrides(base, props).contains_key(props[i].0@),
        with_overrides(base, props)[props[i].0@] == props[i].1@,
    decreases props.len(),
{
    if i < props.len() - 1 {
        let front = props.drop_last();
        assert forall|j: int| i < j < front.len() implies (#[trigger] front[j]).0@ != front[i].0@ by {
            assert(front[j] == props[j]);
        }
        lemma_with_overrides_keeps(base, front, i);
        assert(props.last().0@ != props[i].0@);
    }
}

/// A key that no override names keeps its value from `base`.
proof fn lemma_with_overrides_untouched(base: Map<Seq<char>, Seq<char>>, props: Seq<(String, String)>, k: Seq<char>)
    requires
        forall|j: int| 0 <= j < props.len() ==> (#[trigger] props[j]).0@ != k,
    ensures
        with_overrides(base, props).contains_key(k) == base.contains_key(k),
        base.contains_key(k) ==> with_overrides(base, props)[k] == base[k],
    decreases props.len(),
{
    if props.len() > 0 {
        let front = props.drop_last();
        assert forall|j: int| 0 <= j < front.len() implies (#[trigger] front[j]).0@ != k by {
            assert(front[j] == props[j]);
        }
        lemma_with_overrides_untouched(base, front, k);
        assert(props[props.len() - 1].0@ != k);
    }
}

/// Every key stays present once set.
proof fn lemma_with_overrides_domain(base: Map<Seq<char>, Seq<char>>, props: Seq<(String, String)>, k: Seq<char>)
    requires
        base.contains_key(k),
    ensures
        with_overrides(base, props).contains_key(k),
    decreases props.len(),
{
    if props.len() > 0 {
        lemma_with_overrides_domain(base, props.drop_last(), k);
    }
}

/// Every computed entry is in the `Info.plist`; where no override names its key,
/// it holds the computed value.
pub proof fn lemma_mandatory_keys_present(binary: Seq<char>, ctx: Ctx, k: Seq<char>)
    requires
        mandatory_entries(binary, ctx.project_id@, ctx.project_name@, ctx.project_version@).contains_key(k),
    ensures
        manifest_entries(binary, ctx).contains_key(k),
        (forall|j: int| 0 <= j < overrides_of(ctx).len() ==> (#[trigger] overrides_of(ctx)[j]).0@ != k)
            ==> manifest_entries(binary, ctx)[k] == mandatory_entries(binary, ctx.project_id@, ctx.project_name@, ctx.project_version@)[k],
{
    let base = mandatory_entries(binary, ctx.project_id@, ctx.project_name@, ctx.project_version@);
    lemma_with_overrides_domain(base, overrides_of(ctx), k);
    if forall|j: int| 0 <= j < overrides_of(ctx).len() ==> (#[trigger] overrides_of(ctx)[j]).0@ != k {
        lemma_with_overrides_untouched(base, overrides_of(ctx), k);
    }
}

/// An override wins: where the overrides name each key once, the `Info.plist`
/// holds exactly the override's value for its key, whether or not that key is
/// one of the computed ones.
pub proof fn lemma_override_wins(binary: Seq<char>, ctx: Ctx, i: int)
    requires
        keys_distinct(overrides_of(ctx)),
        0 <= i < overrides_of(ctx).len(),
    ensures
        manifest_entries(binary, ctx).contains_key(overrides_of(ctx)[i].0@),
        manifest_entries(binary, ctx)[overrides_of(ctx)[i].0@] == overrides_of(ctx)[i].1@,
{
    let props = overrides_of(ctx);
    assert forall|j: int| i < j < props.len() implies (#[trigger] props[j]).0@ != props[i].0@ by {
        assert(props[i].0@ != props[j].0@);
    }
    lemma_with_overrides_keeps(
        mandatory_entries(binary, ctx.project_id@, ctx.project_name@, ctx.project_version@),
        props,
        i,
    );
}

/// Two `Info.plist`s with the same entries list the same key/value pairs,
/// whatever their order: exactly the pairs of the mapping.
pub proof fn lemma_same_entries_same_pairs(a: InfoPlist, b: InfoPlist)
    requires
        a.wf(),
        b.wf(),
        a.view() == b.view(),
    ensures
        pair_set(a.entries@) == pair_set(b.entries@),
        forall|p: (Seq<char>, Seq<char>)| #[trigger] pair_set(a.entries@).contains(p)
            <==> a.view().contains_key(p.0) && a.view()[p.0] == p.1,
{
    lemma_pairs_are_view(a);
    lemma_pairs_are_view(b);
    assert(pair_set(a.entries@) =~= pair_set(b.entries@));
}

proof fn lemma_pairs_are_view(a: InfoPlist)
    requires
        a.wf(),
    ensures
        forall|p: (Seq<char>, Seq<char>)| #[trigger] pair_set(a.entries@).contains(p)
            <==> a.view().contains_key(p.0) && a.view()[p.0] == p.1,
{
    let e = a.entries@;
    assert forall|p: (Seq<char>, Seq<char>)| #[trigger] pair_set(e).contains(p)
        <==> a.view().contains_key(p.0) && a.view()[p.0] == p.1 by {
        if pair_set(e).contains(p) {
            let i = choose|i: int| 0 <= i < e.len() && (e[i].0@, e[i].1@) == p;
            assert(e[i].0@ == p.0);
            let j = choose|j: int| 0 <= j < e.len() && e[j].0@ == p.0;
            if i != j {
                if i < j {
                    assert(e[i].0@ != e[j].0@);
                } else {
                    assert(e[j].0@ != e[i].0@);
                }
            }
        }
        if a.view().contains_key(p.0) && a.view()[p.0] == p.1 {
            let j = choose|j: int| 0 <= j < e.len() && e[j].0@ == p.0;
            assert((e[j].0@, e[j].1@) == p);
        }
    }
}

} // verus!
