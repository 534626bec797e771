//! Paths as plain strings: joining, the last component, siblings, and the
//! split of a file name into stem and extension.
//!
//! A path here has one separator, the `sep` each function is given (the
//! host's main separator). Unlike `std::path` on Windows, the other slash is
//! an ordinary character, and `.` components are not skipped: `a/.` has no
//! file name. Hosts that accept both slashes hand in paths that use `sep`.
use vstd::prelude::*;

verus! {

/// Relies on `String::push`: appends one character at the end.
#[verifier::external_body]
pub(crate) fn push_char(s: &mut String, c: char)
    ensures
        final(s)@ == old(s)@.push(c),
{
    s.push(c)
}

/// `dir` joined with the single component `name`, with `sep` between them.
pub open spec fn join_spec(dir: Seq<char>, name: Seq<char>, sep: char) -> Seq<char> {
    if dir.len() == 0 {
        name
    } else if dir.last() == sep {
        dir + name
    } else {
        dir.push(sep) + name
    }
}

/// Joins a directory path and a single name with the separator `sep`. An
/// empty directory gives the name itself; no separator is doubled.
pub fn join_path(dir: &str, name: &str, sep: char) -> (r: String)
    ensures
        r@ == join_spec(dir@, name@, sep),
{
    let mut r = String::from_str(dir);
    let n = dir.unicode_len();
    if n == 0 {
        return String::from_str(name);
    }
    if dir.get_char(n - 1) != sep {
        push_char(&mut r, sep);
    }
    r.append(name);
    r
}

/// Index of the last occurrence of `c` in `s`, or -1 when `c` does not occur.
pub open spec fn last_index_spec(s: Seq<char>, c: char) -> int
    decreases s.len(),
{
    if s.len() == 0 {
        -1
    } else if s.last() == c {
        s.len() - 1
    } else {
        last_index_spec(s.drop_last(), c)
    }
}

/// `s` without the separators at its end.
pub open spec fn trim_end_spec(s: Seq<char>, sep: char) -> Seq<char>
    decreases s.len(),
{
    if s.len() > 0 && s.last() == sep {
        trim_end_spec(s.drop_last(), sep)
    } else {
        s
    }
}

/// The last component of a path: what follows its last separator once the
/// separators at its end are dropped. A path with no such component (empty,
/// a root) or whose last component is `.` or `..` has no file name.
pub open spec fn file_name_spec(p: Seq<char>, sep: char) -> Option<Seq<char>> {
    let t = trim_end_spec(p, sep);
    let c = t.subrange(last_index_spec(t, sep) + 1, t.len() as int);
    if c.len() == 0 || c == seq!['.'] || c == seq!['.', '.'] {
        None
    } else {
        Some(c)
    }
}

/// The path that names `name` in the directory that holds `p`: `p` with its
/// last component replaced. Empty paths and roots have none.
pub open spec fn sibling_spec(p: Seq<char>, name: Seq<char>, sep: char) -> Option<Seq<char>> {
    let t = trim_end_spec(p, sep);
    if t.len() == 0 {
        None
    } else {
        Some(t.subrange(0, last_index_spec(t, sep) + 1) + name)
    }
}

pub(crate) proof fn lemma_last_index_bounds(s: Seq<char>, c: char)
    ensures
        -1 <= last_index_spec(s, c) < s.len(),
        last_index_spec(s, c) >= 0 ==> s[last_index_spec(s, c)] == c,
        forall|j: int| last_index_spec(s, c) < j < s.len() ==> s[j] != c,
    decreases s.len(),
{
    if s.len() > 0 && s.last() != c {
        lemma_last_index_bounds(s.drop_last(), c);
        assert(forall|j: int| 0 <= j < s.len() - 1 ==> s.drop_last()[j] == s[j]);
    }
}

proof fn lemma_trim_end_prefix(s: Seq<char>, sep: char)
    ensures
        trim_end_spec(s, sep).len() <= s.len(),
        trim_end_spec(s, sep) == s.subrange(0, trim_end_spec(s, sep).len() as int),
    decreases s.len(),
{
    if s.len() > 0 && s.last() == sep {
        lemma_trim_end_prefix(s.drop_last(), sep);
    }
}

/// Position of the last `c` in `s`, if any.
fn last_index(s: &str, c: char) -> (r: Option<usize>)
    ensures
        match r {
            Some(i) => i == last_index_spec(s@, c),
            None => last_index_spec(s@, c) == -1,
        },
{
    let n = s.unicode_len();
    let mut i: usize = n;
    assert(s@.subrange(0, n as int) == s@);
    while i > 0
        invariant
            i <= n == s@.len(),
            last_index_spec(s@, c) == last_index_spec(s@.subrange(0, i as int), c),
        decreases i,
    {
        let ghost pre = s@.subrange(0, i as int);
        assert(pre.last() == s@[i - 1]);
        if s.get_char(i - 1) == c {
            assert(last_index_spec(pre, c) == i - 1);
            return Some(i - 1);
        }
        assert(pre.drop_last() == s@.subrange(0, i - 1));
        i = i - 1;
    }
    None
}

/// Position just after the last `c` in `s`, or 0.
fn after_last(s: &str, c: char) -> (r: usize)
    ensures
        r == last_index_spec(s@, c) + 1,
{
    let n = s.unicode_len();
    match last_index(s, c) {
        Some(i) => {
            proof {
                lemma_last_index_bounds(s@, c);
            }
            assert(i < n);
            i + 1
        },
        None => 0,
    }
}

/// Length of `s` once the separators at its end are dropped.
fn trimmed_len(s: &str, sep: char) -> (r: usize)
    ensures
        r == trim_end_spec(s@, sep).len(),
{
    let n = s.unicode_len();
    let mut i: usize = n;
    proof {
        lemma_trim_end_prefix(s@, sep);
        assert(s@.subrange(0, n as int) == s@);
    }
    while i > 0 && s.get_char(i - 1) == sep
        invariant
            i <= n == s@.len(),
            trim_end_spec(s@, sep) == trim_end_spec(s@.subrange(0, i as int), sep),
        decreases i,
    {
        assert(s@.subrange(0, i as int).drop_last() == s@.subrange(0, i - 1));
        i = i - 1;
    }
    i
}

/// The last component of `path`, when it has one.
pub fn file_name(path: &str, sep: char) -> (r: Option<String>)
    ensures
        r.is_some() == file_name_spec(path@, sep).is_some(),
        r.is_some() ==> r.unwrap()@ == file_name_spec(path@, sep).unwrap(),
{
    let t = trimmed_len(path, sep);
    proof {
        lemma_trim_end_prefix(path@, sep);
    }
    let trimmed = path.substring_char(0, t);
    assert(trimmed@ == trim_end_spec(path@, sep));
    let k = after_last(trimmed, sep);
    proof {
        lemma_last_index_bounds(trimmed@, sep);
    }
    let c = trimmed.substring_char(k, t);
    let cn = c.unicode_len();
    if cn == 0 {
        return None;
    }
    if cn <= 2 && c.get_char(0) == '.' && (cn == 1 || c.get_char(1) == '.') {
        proof {
            if cn == 1 {
                assert(c@ == seq!['.']);
            } else {
                assert(c@ == seq!['.', '.']);
            }
        }
        return None;
    }
    proof {
        if c@ == seq!['.'] || c@ == seq!['.', '.'] {
            assert(c@[0] == '.');
        }
    }
    Some(String::from_str(c))
}

/// `path` with its last component replaced by `name`, when it has one.
pub fn sibling_path(path: &str, name: &str, sep: char) -> (r: Option<String>)
    ensures
        r.is_some() == sibling_spec(path@, name@, sep).is_some(),
        r.is_some() ==> r.unwrap()@ == sibling_spec(path@, name@, sep).unwrap(),
{
    let t = trimmed_len(path, sep);
    if t == 0 {
        return None;
    }
    proof {
        lemma_trim_end_prefix(path@, sep);
    }
    let trimmed = path.substring_char(0, t);
    assert(trimmed@ == trim_end_spec(path@, sep));
    let k = after_last(trimmed, sep);
    proof {
        lemma_last_index_bounds(trimmed@, sep);
    }
    let mut r = String::from_str(trimmed.substring_char(0, k));
    r.append(name);
    Some(r)
}

} // verus!
