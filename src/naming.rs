//! Collision-free destination names: `name`, then `stem (1)ext`,
//! `stem (2)ext`, ... up to a fixed number of attempts.
use vstd::prelude::*;
use crate::paths::{join_path, join_spec, last_index_spec, push_char};

verus! {

/// How many numbered names are tried before the last one is given back as is.
pub const MAX_ATTEMPTS: u32 = 1000;

/// Position of the dot that starts the extension of a single file name, as
/// `Path::extension` finds it: the last dot, unless the name has none or its
/// only dot is the leading one.
pub open spec fn ext_dot_spec(name: Seq<char>) -> int {
    let i = last_index_spec(name, '.');
    if i <= 0 { -1 } else { i }
}

/// The stem of a name: all of it for a directory or a name without extension,
/// else what comes before the extension's dot.
pub open spec fn stem_spec(name: Seq<char>, is_dir: bool) -> Seq<char> {
    if is_dir || ext_dot_spec(name) < 0 {
        name
    } else {
        name.subrange(0, ext_dot_spec(name))
    }
}

/// The extension of a name with its dot, or empty.
pub open spec fn ext_spec(name: Seq<char>, is_dir: bool) -> Seq<char> {
    if is_dir || ext_dot_spec(name) < 0 {
        Seq::empty()
    } else {
        name.subrange(ext_dot_spec(name), name.len() as int)
    }
}

/// The decimal digit for `d < 10`.
pub open spec fn digit_spec(d: nat) -> char {
    (d + 48) as char
}

/// The decimal numeral of `n`, without leading zeros.
pub open spec fn decimal_spec(n: nat) -> Seq<char>
    decreases n,
{
    if n < 10 {
        seq![digit_spec(n)]
    } else {
        decimal_spec(n / 10).push(digit_spec(n % 10))
    }
}

/// The `k`-th name tried: the name itself for 0, else `stem (k)ext`.
pub open spec fn numbered_name_spec(name: Seq<char>, is_dir: bool, k: nat) -> Seq<char> {
    if k == 0 {
        name
    } else {
        stem_spec(name, is_dir) + seq![' ', '('] + decimal_spec(k) + seq![')'] + ext_spec(
            name,
            is_dir,
        )
    }
}

/// The `k`-th path tried in `dir`.
pub open spec fn candidate_spec(
    dir: Seq<char>,
    name: Seq<char>,
    is_dir: bool,
    sep: char,
    k: nat,
) -> Seq<char> {
    join_spec(dir, numbered_name_spec(name, is_dir, k), sep)
}

/// The first attempt from `k` on whose path is not in `taken`, or the last
/// attempt when all of them are.
pub open spec fn first_free_spec(
    dir: Seq<char>,
    name: Seq<char>,
    is_dir: bool,
    sep: char,
    taken: Set<Seq<char>>,
    k: nat,
) -> nat
    decreases MAX_ATTEMPTS - k,
{
    if k >= MAX_ATTEMPTS || !taken.contains(candidate_spec(dir, name, is_dir, sep, k)) {
        k
    } else {
        first_free_spec(dir, name, is_dir, sep, taken, k + 1)
    }
}

/// The path chosen in `dir` for `name` when the paths in `taken` exist.
pub open spec fn resolved_spec(
    dir: Seq<char>,
    name: Seq<char>,
    is_dir: bool,
    sep: char,
    taken: Set<Seq<char>>,
) -> Seq<char> {
    candidate_spec(dir, name, is_dir, sep, first_free_spec(dir, name, is_dir, sep, taken, 0))
}

/// The probe `f` answers of each path whether it is in `taken`.
pub open spec fn probe_matches<F: Fn(&str) -> bool>(f: F, taken: Set<Seq<char>>) -> bool {
    forall|p: &str, b: bool| #[trigger] f.ensures((p,), b) ==> b == taken.contains(p@)
}

/// The probe `f` gave the answer `b` for some string whose view is `s`.
pub open spec fn probe_said<F: Fn(&str) -> bool>(f: F, s: Seq<char>, b: bool) -> bool {
    exists|p: &str| p@ == s && #[trigger] f.ensures((p,), b)
}

/// The decimal numeral of `n`.
pub fn decimal_string(n: u32) -> (r: String)
    ensures
        r@ == decimal_spec(n as nat),
    decreases n,
{
    if n < 10 {
        let mut r = String::new();
        push_char(&mut r, ((n as u8) + 48u8) as char);
        r
    } else {
        let mut r = decimal_string(n / 10);
        push_char(&mut r, (((n % 10) as u8) + 48u8) as char);
        r
    }
}

/// The stem and the extension (with its dot) of a name; a directory keeps its
/// whole name as the stem.
pub fn split_name(name: &str, is_dir: bool) -> (r: (String, String))
    ensures
        r.0@ == stem_spec(name@, is_dir),
        r.1@ == ext_spec(name@, is_dir),
{
    if is_dir {
        return (String::from_str(name), String::new());
    }
    let n = name.unicode_len();
    let mut i: usize = n;
    assert(name@.subrange(0, n as int) == name@);
    while i > 0
        invariant
            i <= n == name@.len(),
            last_index_spec(name@, '.') == last_index_spec(name@.subrange(0, i as int), '.'),
        ensures
            i <= n,
            last_index_spec(name@, '.') == i - 1,
        decreases i,
    {
        let ghost pre = name@.subrange(0, i as int);
        assert(pre.last() == name@[i - 1]);
        if name.get_char(i - 1) == '.' {
            assert(last_index_spec(pre, '.') == i - 1);
            break;
        }
        assert(pre.drop_last() == name@.subrange(0, i - 1));
        i = i - 1;
    }
    // The dot, if any, stands at `i - 1`.
    assert(ext_dot_spec(name@) == if i <= 1 { -1 } else { i - 1 });
    if i <= 1 {
        return (String::from_str(name), String::new());
    }
    let stem = name.substring_char(0, i - 1);
    let ext = name.substring_char(i - 1, n);
    (String::from_str(stem), String::from_str(ext))
}

/// The `k`-th name tried for `name`.
pub fn numbered_name(stem: &str, ext: &str, name: &str, is_dir: bool, k: u32) -> (r: String)
    requires
        stem@ == stem_spec(name@, is_dir),
        ext@ == ext_spec(name@, is_dir),
    ensures
        r@ == numbered_name_spec(name@, is_dir, k as nat),
{
    if k == 0 {
        return String::from_str(name);
    }
    let mut r = String::from_str(stem);
    push_char(&mut r, ' ');
    push_char(&mut r, '(');
    let d = decimal_string(k);
    r.append(d.as_str());
    push_char(&mut r, ')');
    r.append(ext);
    assert(r@ =~= numbered_name_spec(name@, is_dir, k as nat));
    r
}

pub(crate) proof fn lemma_first_free_is(
    dir: Seq<char>,
    name: Seq<char>,
    is_dir: bool,
    sep: char,
    taken: Set<Seq<char>>,
    from: nat,
    k: nat,
)
    requires
        from <= k <= MAX_ATTEMPTS,
        forall|j: nat| from <= j < k ==> taken.contains(#[trigger] candidate_spec(dir, name, is_dir, sep, j)),
        k < MAX_ATTEMPTS ==> !taken.contains(candidate_spec(dir, name, is_dir, sep, k)),
    ensures
        first_free_spec(dir, name, is_dir, sep, taken, from) == k,
    decreases k - from,
{
    if from < k {
        assert(taken.contains(candidate_spec(dir, name, is_dir, sep, from)));
        lemma_first_free_is(dir, name, is_dir, sep, taken, from + 1, k);
    }
}

/// A path in `dest_dir` for `name` that did not exist when probed: `name`
/// itself when free, else the first free `stem (k)ext` for k = 1, 2, ...,
/// where a directory keeps its whole name as the stem. When every attempt up
/// to `MAX_ATTEMPTS` is taken, the last one is returned although it exists.
/// `probe` answers whether a path exists.
pub fn get_unique_path<F: Fn(&str) -> bool>(
    dest_dir: &str,
    name: &str,
    is_dir: bool,
    sep: char,
    probe: F,
) -> (r: String)
    requires
        forall|p: &str| probe.requires((p,)),
    ensures
        exists|k: nat|
            {
                &&& k <= MAX_ATTEMPTS
                &&& r@ == candidate_spec(dest_dir@, name@, is_dir, sep, k)
                &&& forall|j: nat|
                    j < k ==> probe_said(
                        probe,
                        #[trigger] candidate_spec(dest_dir@, name@, is_dir, sep, j),
                        true,
                    )
                &&& k < MAX_ATTEMPTS ==> probe_said(
                    probe,
                    candidate_spec(dest_dir@, name@, is_dir, sep, k),
                    false,
                )
            },
        forall|taken: Set<Seq<char>>|
            #[trigger] probe_matches(probe, taken) ==> r@ == resolved_spec(
                dest_dir@,
                name@,
                is_dir,
                sep,
                taken,
            ),
{
    let ghost dir = dest_dir@;
    let ghost nm = name@;
    let (stem, ext) = split_name(name, is_dir);
    let mut k: u32 = 0;
    loop
        invariant
            k <= MAX_ATTEMPTS,
            stem@ == stem_spec(nm, is_dir),
            ext@ == ext_spec(nm, is_dir),
            dir == dest_dir@,
            nm == name@,
            forall|p: &str| probe.requires((p,)),
            forall|j: nat|
                j < k ==> probe_said(probe, #[trigger] candidate_spec(dir, nm, is_dir, sep, j), true),
        decreases MAX_ATTEMPTS - k,
    {
        let cand = numbered_name(stem.as_str(), ext.as_str(), name, is_dir, k);
        let path = join_path(dest_dir, cand.as_str(), sep);
        let p = path.as_str();
        let found = probe(p);
        assert(p@ == candidate_spec(dir, nm, is_dir, sep, k as nat));
        if !found || k == MAX_ATTEMPTS {
            proof {
                assert(k < MAX_ATTEMPTS ==> probe_said(
                    probe,
                    candidate_spec(dir, nm, is_dir, sep, k as nat),
                    false,
                ));
                assert forall|taken: Set<Seq<char>>|
                    #[trigger] probe_matches(probe, taken) implies path@ == resolved_spec(
                        dir,
                        nm,
                        is_dir,
                        sep,
                        taken,
                    ) by {
                    assert forall|j: nat| 0 <= j < k implies taken.contains(
                        #[trigger] candidate_spec(dir, nm, is_dir, sep, j),
                    ) by {
                        assert(probe_said(probe, candidate_spec(dir, nm, is_dir, sep, j), true));
                    }
                    lemma_first_free_is(dir, nm, is_dir, sep, taken, 0, k as nat);
                }
            }
            return path;
        }
        assert(probe_said(probe, candidate_spec(dir, nm, is_dir, sep, k as nat), true));
        k = k + 1;
    }
}

/// A name that is free in the destination directory (as in an empty one) is
/// kept unchanged.
pub proof fn lemma_free_name_kept(
    dir: Seq<char>,
    name: Seq<char>,
    is_dir: bool,
    sep: char,
    taken: Set<Seq<char>>,
)
    requires
        !taken.contains(join_spec(dir, name, sep)),
    ensures
        resolved_spec(dir, name, is_dir, sep, taken) == join_spec(dir, name, sep),
{
    assert(candidate_spec(dir, name, is_dir, sep, 0) == join_spec(dir, name, sep));
}

/// When the name and its first numbered form are both taken and the second
/// is free, the second numbered form is chosen.
pub proof fn lemma_third_attempt(
    dir: Seq<char>,
    name: Seq<char>,
    is_dir: bool,
    sep: char,
    taken: Set<Seq<char>>,
)
    requires
        taken.contains(join_spec(dir, name, sep)),
        taken.contains(candidate_spec(dir, name, is_dir, sep, 1)),
        !taken.contains(candidate_spec(dir, name, is_dir, sep, 2)),
    ensures
        resolved_spec(dir, name, is_dir, sep, taken) == candidate_spec(dir, name, is_dir, sep, 2),
{
    assert(candidate_spec(dir, name, is_dir, sep, 0) == join_spec(dir, name, sep));
    lemma_first_free_is(dir, name, is_dir, sep, taken, 0, 2);
}

} // verus!
