//! Paths as text, joined the way `std::path::Path::join` joins relative and
//! absolute parts on Unix.
use vstd::prelude::*;

verus! {

/// `base` followed by `part`: an absolute `part` stands alone; otherwise one
/// `/` separates the two unless `base` is empty or already ends with one.
pub open spec fn joined(base: Seq<char>, part: Seq<char>) -> Seq<char> {
    if part.len() > 0 && part[0] == '/' {
        part
    } else if base.len() == 0 || base.last() == '/' {
        base + part
    } else {
        base + "/"@ + part
    }
}

/// Joins `part` onto `base`.
pub fn join_path(base: &str, part: &str) -> (r: String)
    ensures
        r@ == joined(base@, part@),
{
    let part_len = part.unicode_len();
    let base_len = base.unicode_len();
    if part_len > 0 && part.get_char(0) == '/' {
        return String::from_str(part);
    }
    let mut r = String::from_str(base);
    if !(base_len == 0 || base.get_char(base_len - 1) == '/') {
        r.append("/");
    }
    r.append(part);
    r
}

/// The length of `s` without the `/` characters that end it.
pub open spec fn trimmed_len(s: Seq<char>) -> nat
    decreases s.len(),
{
    if s.len() > 0 && s.last() == '/' {
        trimmed_len(s.drop_last())
    } else {
        s.len()
    }
}

/// Where the last component of the first `n` characters of `s` starts: just
/// after the last `/` among them, or at 0.
pub open spec fn component_start(s: Seq<char>, n: nat) -> nat
    decreases n,
{
    if n == 0 {
        0
    } else if s[n - 1] == '/' {
        n
    } else {
        component_start(s, (n - 1) as nat)
    }
}

/// The last component of a path, ignoring `/` at its end: none where that is
/// empty, `.` or `..`.
pub open spec fn last_component(s: Seq<char>) -> Option<Seq<char>> {
    let end = trimmed_len(s);
    let c = s.subrange(component_start(s, end) as int, end as int);
    if c.len() == 0 || c == "."@ || c == ".."@ {
        None
    } else {
        Some(c)
    }
}

proof fn lemma_trimmed_len_bound(s: Seq<char>)
    ensures
        trimmed_len(s) <= s.len(),
    decreases s.len(),
{
    if s.len() > 0 && s.last() == '/' {
        lemma_trimmed_len_bound(s.drop_last());
    }
}

proof fn lemma_component_start_bound(s: Seq<char>, n: nat)
    ensures
        component_start(s, n) <= n,
    decreases n,
{
    if n > 0 && s[n - 1] != '/' {
        lemma_component_start_bound(s, (n - 1) as nat);
    }
}

/// The last component of `path`, as `Path::file_name` gives it for a plain path.
pub fn file_name(path: &str) -> (r: Option<String>)
    ensures
        r is Some <==> last_component(path@) is Some,
        r is Some ==> r->Some_0@ == last_component(path@)->Some_0,
{
    let len = path.unicode_len();
    let mut end: usize = len;
    proof {
        lemma_trimmed_len_bound(path@);
        assert(path@.subrange(0, len as int) =~= path@);
    }
    while end > 0 && path.get_char(end - 1) == '/'
        invariant
            end <= len == path@.len(),
            trimmed_len(path@.subrange(0, end as int)) == trimmed_len(path@),
        decreases end,
    {
        assert(path@.subrange(0, end as int).drop_last() =~= path@.subrange(0, end - 1));
        end = end - 1;
    }
    assert(path@.subrange(0, end as int).len() == end);
    assert(trimmed_len(path@) == end as nat);
    let mut start: usize = end;
    while start > 0 && path.get_char(start - 1) != '/'
        invariant
            start <= end <= len == path@.len(),
            component_start(path@, end as nat) == component_start(path@, start as nat),
        decreases start,
    {
        start = start - 1;
    }
    proof { lemma_component_start_bound(path@, end as nat); }
    let c = path.substring_char(start, end);
    let n = c.unicode_len();
    proof {
        reveal_strlit(".");
        reveal_strlit("..");
    }
    if n == 0 {
        return None;
    }
    if n == 1 && c.get_char(0) == '.' {
        assert(c@ =~= "."@);
        return None;
    }
    if n == 2 && c.get_char(0) == '.' && c.get_char(1) == '.' {
        assert(c@ =~= ".."@);
        return None;
    }
    assert(c@ != "."@ && c@ != ".."@) by {
        if c@ == "."@ {
            assert(c@[0] == '.');
        }
        if c@ == ".."@ {
            assert(c@[0] == '.' && c@[1] == '.');
        }
    }
    Some(String::from_str(c))
}

} // verus!
