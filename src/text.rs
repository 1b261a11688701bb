//! Searching and replacing within text.
use vstd::prelude::*;

verus! {

/// The views of a list of strings.
pub open spec fn views(v: Seq<String>) -> Seq<Seq<char>> {
    v.map_values(|s: String| s@)
}

/// `pat` occurs in `s` at position `i`.
pub open spec fn occurs_at(s: Seq<char>, pat: Seq<char>, i: int) -> bool {
    0 <= i && i + pat.len() <= s.len() && s.subrange(i, i + pat.len()) == pat
}

/// `pat` occurs somewhere in `s`.
pub open spec fn contains_seq(s: Seq<char>, pat: Seq<char>) -> bool {
    exists|i: int| occurs_at(s, pat, i)
}

/// `s` with each occurrence of the non-empty `pat` replaced by `rep`, taken from
/// the left without overlaps, as `str::replace` does.
pub open spec fn replaced(s: Seq<char>, pat: Seq<char>, rep: Seq<char>) -> Seq<char>
    decreases s.len(),
{
    if s.len() == 0 || pat.len() == 0 {
        s
    } else if occurs_at(s, pat, 0) {
        rep + replaced(s.skip(pat.len() as int), pat, rep)
    } else {
        seq![s[0]] + replaced(s.skip(1), pat, rep)
    }
}

/// Whether `pat` occurs at position `i` of `s`.
fn occurs_here(s: &str, s_len: usize, pat: &str, pat_len: usize, i: usize) -> (r: bool)
    requires
        s_len == s@.len(),
        pat_len == pat@.len(),
        i <= s_len,
    ensures
        r == occurs_at(s@, pat@, i as int),
{
    if pat_len > s_len - i {
        return false;
    }
    let mut k: usize = 0;
    while k < pat_len
        invariant
            k <= pat_len == pat@.len(),
            i + pat_len <= s_len == s@.len(),
            forall|m: int| 0 <= m < k ==> s@[i + m] == pat@[m],
        decreases pat_len - k,
    {
        if s.get_char(i + k) != pat.get_char(k) {
            assert(s@.subrange(i as int, i + pat_len)[k as int] != pat@[k as int]);
            return false;
        }
        k = k + 1;
    }
    assert(s@.subrange(i as int, i + pat_len) =~= pat@);
    true
}

/// Whether `pat` occurs in `s`.
pub fn contains_text(s: &str, pat: &str) -> (r: bool)
    ensures
        r == contains_seq(s@, pat@),
{
    let s_len = s.unicode_len();
    let pat_len = pat.unicode_len();
    let mut i: usize = 0;
    while i < s_len
        invariant
            i <= s_len == s@.len(),
            pat_len == pat@.len(),
            forall|j: int| 0 <= j < i ==> !occurs_at(s@, pat@, j),
        decreases s_len - i,
    {
        if occurs_here(s, s_len, pat, pat_len, i) {
            return true;
        }
        i = i + 1;
    }
    if occurs_here(s, s_len, pat, pat_len, s_len) {
        return true;
    }
    assert forall|j: int| !occurs_at(s@, pat@, j) by {
        if 0 <= j < s_len {
            assert(!occurs_at(s@, pat@, j));
        }
    }
    false
}

proof fn lemma_replaced_skip(s: Seq<char>, pat: Seq<char>, rep: Seq<char>, i: int)
    requires
        0 <= i < s.len(),
        pat.len() > 0,
    ensures
        replaced(s.skip(i), pat, rep) == if occurs_at(s, pat, i) {
            rep + replaced(s.skip(i + pat.len()), pat, rep)
        } else {
            seq![s[i]] + replaced(s.skip(i + 1), pat, rep)
        },
{
    let t = s.skip(i);
    if occurs_at(s, pat, i) {
        assert(t.subrange(0, pat.len() as int) =~= s.subrange(i, i + pat.len()));
        assert(t.skip(pat.len() as int) =~= s.skip(i + pat.len()));
    } else {
        if occurs_at(t, pat, 0) {
            assert(t.subrange(0, pat.len() as int) =~= s.subrange(i, i + pat.len()));
        }
        assert(t.skip(1) =~= s.skip(i + 1));
    }
}

/// `s` with each occurrence of `pat` replaced by `rep`.
pub fn replace_text(s: &str, pat: &str, rep: &str) -> (r: String)
    requires
        pat@.len() > 0,
    ensures
        r@ == replaced(s@, pat@, rep@),
{
    let s_len = s.unicode_len();
    let pat_len = pat.unicode_len();
    let mut out = String::new();
    let mut i: usize = 0;
    assert(s@.skip(0) =~= s@);
    while i < s_len
        invariant
            i <= s_len == s@.len(),
            pat_len == pat@.len() > 0,
            out@ + replaced(s@.skip(i as int), pat@, rep@) == replaced(s@, pat@, rep@),
        decreases s_len - i,
    {
        proof { lemma_replaced_skip(s@, pat@, rep@, i as int); }
        if occurs_here(s, s_len, pat, pat_len, i) {
            out.append(rep);
            assert((out@ + replaced(s@.skip(i + pat_len), pat@, rep@)) =~= (out@.subrange(0, out@.len() - rep@.len()) + (rep@ + replaced(s@.skip(i + pat_len), pat@, rep@))));
            i = i + pat_len;
        } else {
            let c = s.substring_char(i, i + 1);
            out.append(c);
            assert(c@ =~= seq![s@[i as int]]);
            assert((out@ + replaced(s@.skip(i + 1), pat@, rep@)) =~= (out@.subrange(0, out@.len() - 1) + (seq![s@[i as int]] + replaced(s@.skip(i + 1), pat@, rep@))));
            i = i + 1;
        }
    }
    assert(s@.skip(i as int).len() == 0);
    assert(out@ + s@.skip(i as int) =~= out@);
    out
}

} // verus!
