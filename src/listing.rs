//! Directory listings as the front end shows them: entries, their order,
//! which folders the tree shows, search matches, drives and cloud folders.
use vstd::prelude::*;
use crate::paths::push_char;
use crate::text::{contains, contains_spec, lex_le, lemma_lex_total, lemma_lex_trans, lower_of, lowercase, starts_with, starts_with_spec, str_le};

verus! {

broadcast use vstd::seq_lib::group_to_multiset_ensures;

/// A file or directory as listed: read fresh on every query.
#[derive(Clone, Debug)]
pub struct FileEntry {
    pub name: String,
    pub path: String,
    pub is_dir: bool,
    /// Size in bytes.
    pub size: u64,
    /// Last modification, formatted, or `-` when unknown.
    pub modified: String,
    /// Lowercase extension, or empty.
    pub extension: String,
    /// A cloud-sync stub whose data is not on this machine yet.
    pub is_cloud_placeholder: bool,
}

/// A drive of the machine.
#[derive(Debug)]
pub struct DriveInfo {
    pub name: String,
    pub path: String,
    pub total_space: u64,
    pub free_space: u64,
}

/// A folder kept in sync by a cloud storage service.
#[derive(Debug)]
pub struct CloudDrive {
    pub name: String,
    pub path: String,
    pub provider: String,
}

/// `a` is listed no later than `b`: directories before files, then by the
/// lowercase names in character order.
pub open spec fn listed_no_later(a: FileEntry, b: FileEntry) -> bool {
    (a.is_dir && !b.is_dir) || (a.is_dir == b.is_dir && lex_le(lower_of(a.name@), lower_of(b.name@)))
}

/// The entries stand in listing order.
pub open spec fn in_listing_order(s: Seq<FileEntry>) -> bool {
    forall|i: int, j: int| 0 <= i < j < s.len() ==> listed_no_later(#[trigger] s[i], #[trigger] s[j])
}

proof fn lemma_listed_total(a: FileEntry, b: FileEntry)
    ensures
        listed_no_later(a, b) || listed_no_later(b, a),
{
    lemma_lex_total(lower_of(a.name@), lower_of(b.name@));
}

proof fn lemma_listed_trans(a: FileEntry, b: FileEntry, c: FileEntry)
    requires
        listed_no_later(a, b),
        listed_no_later(b, c),
    ensures
        listed_no_later(a, c),
{
    if a.is_dir == b.is_dir && b.is_dir == c.is_dir {
        lemma_lex_trans(lower_of(a.name@), lower_of(b.name@), lower_of(c.name@));
    }
}

/// Whether `a` is listed no later than `b`, given their lowercase names.
fn listed_no_later_exec(a: &FileEntry, a_key: &String, b: &FileEntry, b_key: &String) -> (r: bool)
    requires
        a_key@ == lower_of(a.name@),
        b_key@ == lower_of(b.name@),
    ensures
        r == listed_no_later(*a, *b),
{
    if a.is_dir != b.is_dir {
        a.is_dir
    } else {
        str_le(a_key.as_str(), b_key.as_str())
    }
}

/// The entries in listing order: directories first, then by name without
/// regard to case.
pub fn sort_entries(entries: Vec<FileEntry>) -> (r: Vec<FileEntry>)
    ensures
        r@.to_multiset() == entries@.to_multiset(),
        r@.len() == entries@.len(),
        in_listing_order(r@),
{
    let ghost orig = entries@;
    let n = entries.len();
    let mut rest = entries;
    let mut out: Vec<FileEntry> = Vec::new();
    let mut keys: Vec<String> = Vec::new();
    let mut i: usize = 0;
    assert(orig.subrange(0, n as int) =~= orig);
    while i < n
        invariant
            i <= n == orig.len(),
            rest@ == orig.subrange(i as int, n as int),
            keys@.len() == out@.len(),
            out@.len() == i,
            forall|k: int| 0 <= k < out@.len() ==> (#[trigger] keys@[k])@ == lower_of(out@[k].name@),
            out@.to_multiset() == orig.subrange(0, i as int).to_multiset(),
            in_listing_order(out@),
        decreases n - i,
    {
        let x = rest.remove(0);
        assert(x == orig[i as int]);
        assert(rest@ =~= orig.subrange(i + 1, n as int));
        let key = lowercase(x.name.as_str());
        let mut p: usize = out.len();
        while p > 0 && !listed_no_later_exec(&out[p - 1], &keys[p - 1], &x, &key)
            invariant
                p <= out@.len(),
                keys@.len() == out@.len(),
                forall|k: int| 0 <= k < out@.len() ==> (#[trigger] keys@[k])@ == lower_of(out@[k].name@),
                key@ == lower_of(x.name@),
                forall|k: int| p <= k < out@.len() ==> !listed_no_later(#[trigger] out@[k], x),
            decreases p,
        {
            p = p - 1;
        }
        proof {
            let s = out@;
            assert forall|a: int, b: int| 0 <= a < b < s.insert(p as int, x).len() implies listed_no_later(
                #[trigger] s.insert(p as int, x)[a],
                #[trigger] s.insert(p as int, x)[b],
            ) by {
                let t = s.insert(p as int, x);
                if b < p {
                    assert(t[a] == s[a] && t[b] == s[b]);
                } else if b == p {
                    assert(t[a] == s[a]);
                    if a < p - 1 {
                        lemma_listed_trans(s[a], s[p - 1], x);
                    }
                } else if a == p {
                    assert(t[b] == s[b - 1]);
                    lemma_listed_total(s[b - 1], x);
                } else if a < p {
                    assert(t[a] == s[a] && t[b] == s[b - 1]);
                    lemma_listed_total(s[b - 1], x);
                    if a < p - 1 {
                        lemma_listed_trans(s[a], s[p - 1], x);
                    }
                    lemma_listed_trans(s[a], x, s[b - 1]);
                } else {
                    assert(t[a] == s[a - 1] && t[b] == s[b - 1]);
                }
            }
            assert(orig.subrange(0, i + 1) =~= orig.subrange(0, i as int).push(x));
        }
        out.insert(p, x);
        keys.insert(p, key);
        i = i + 1;
    }
    out
}

/// The folder tree leaves out names that start with `.` or `$` (hidden and
/// system folders).
pub open spec fn hidden_name_spec(name: Seq<char>) -> bool {
    name.len() > 0 && (name[0] == '.' || name[0] == '$')
}

/// An entry the folder tree shows: a directory whose name is not hidden.
pub open spec fn shown_in_tree(e: FileEntry) -> bool {
    e.is_dir && !hidden_name_spec(e.name@)
}

/// The entries of `s` that the folder tree shows, in their order.
pub open spec fn tree_entries_spec(s: Seq<FileEntry>) -> Seq<FileEntry>
    decreases s.len(),
{
    if s.len() == 0 {
        s
    } else if shown_in_tree(s.last()) {
        tree_entries_spec(s.drop_last()).push(s.last())
    } else {
        tree_entries_spec(s.drop_last())
    }
}

/// Whether a folder name is hidden from the folder tree.
pub fn is_hidden_folder_name(name: &str) -> (r: bool)
    ensures
        r == hidden_name_spec(name@),
{
    if name.unicode_len() == 0 {
        return false;
    }
    let c = name.get_char(0);
    c == '.' || c == '$'
}

/// The child folders the tree shows for a directory's entries: directories
/// whose names are not hidden, in listing order.
pub fn folder_children(entries: Vec<FileEntry>) -> (r: Vec<FileEntry>)
    ensures
        r@.to_multiset() == tree_entries_spec(entries@).to_multiset(),
        in_listing_order(r@),
{
    let ghost orig = entries@;
    let n = entries.len();
    let mut rest = entries;
    let mut kept: Vec<FileEntry> = Vec::new();
    let mut i: usize = 0;
    assert(orig.subrange(0, 0) =~= Seq::<FileEntry>::empty());
    while i < n
        invariant
            i <= n == orig.len(),
            rest@ == orig.subrange(i as int, n as int),
            kept@ == tree_entries_spec(orig.subrange(0, i as int)),
        decreases n - i,
    {
        let x = rest.remove(0);
        assert(x == orig[i as int]);
        assert(rest@ =~= orig.subrange(i + 1, n as int));
        let ghost pre = orig.subrange(0, i + 1);
        assert(pre.drop_last() =~= orig.subrange(0, i as int));
        assert(pre.last() == x);
        if x.is_dir && !is_hidden_folder_name(x.name.as_str()) {
            kept.push(x);
        }
        i = i + 1;
    }
    assert(orig.subrange(0, n as int) =~= orig);
    sort_entries(kept)
}

/// A search over a directory tree: the entries found so far, up to `max`.
pub struct SearchResults {
    pub max: usize,
    pub found: Vec<FileEntry>,
}

/// How many results a search keeps when the request gives no limit.
pub const DEFAULT_MAX_RESULTS: usize = 100;

/// A search entry matches when its name, lowercased, holds the query,
/// lowercased.
pub open spec fn search_match_spec(name: Seq<char>, query: Seq<char>) -> bool {
    contains_spec(lower_of(name), lower_of(query))
}

/// Whether an entry named `name` matches the search `query`, regardless of
/// case.
pub fn search_matches(name: &str, query: &str) -> (r: bool)
    ensures
        r == search_match_spec(name@, query@),
{
    let n = lowercase(name);
    let q = lowercase(query);
    contains(n.as_str(), q.as_str())
}

impl SearchResults {
    /// An empty result set that keeps at most `max_results` entries
    /// (`DEFAULT_MAX_RESULTS` when none is given).
    pub fn new(max_results: Option<usize>) -> (r: SearchResults)
        ensures
            r.max == match max_results {
                Some(m) => m,
                None => DEFAULT_MAX_RESULTS,
            },
            r.found@.len() == 0,
    {
        let max = match max_results {
            Some(m) => m,
            None => DEFAULT_MAX_RESULTS,
        };
        SearchResults { max, found: Vec::new() }
    }

    /// Whether the search has as many results as it keeps; the walk stops
    /// then.
    pub fn is_full(&self) -> (r: bool)
        ensures
            r == (self.found@.len() >= self.max),
    {
        self.found.len() >= self.max
    }

    /// Keeps one more matching entry, unless the search is full.
    pub fn add(&mut self, entry: FileEntry)
        ensures
            final(self).max == old(self).max,
            final(self).found@ == if old(self).found@.len() >= old(self).max {
                old(self).found@
            } else {
                old(self).found@.push(entry)
            },
    {
        if self.found.len() < self.max {
            self.found.push(entry);
        }
    }

    /// The results in listing order.
    pub fn finish(self) -> (r: Vec<FileEntry>)
        ensures
            r@.to_multiset() == self.found@.to_multiset(),
            in_listing_order(r@),
    {
        sort_entries(self.found)
    }
}

/// A OneDrive for Business folder: named `OneDrive - ` and a company, not
/// the personal one.
pub open spec fn onedrive_business_spec(name: Seq<char>) -> bool {
    starts_with_spec(name, "OneDrive - "@) && !contains_spec(name, "Personal"@)
}

/// Whether a folder of the home directory is a OneDrive for Business folder.
pub fn is_onedrive_business(name: &str) -> (r: bool)
    ensures
        r == onedrive_business_spec(name@),
{
    starts_with(name, "OneDrive - ") && !contains(name, "Personal")
}

/// The attribute bit of a cloud file whose data is fetched on access.
pub const RECALL_ON_DATA_ACCESS: u32 = 0x0040_0000;

/// The attribute bit of a hidden file.
pub const HIDDEN_ATTRIBUTE: u32 = 0x2;

/// Whether file attributes mark a cloud placeholder, not yet downloaded.
pub fn is_cloud_placeholder_attributes(attributes: u32) -> (r: bool)
    ensures
        r == (attributes & RECALL_ON_DATA_ACCESS != 0),
{
    attributes & RECALL_ON_DATA_ACCESS != 0
}

/// Whether file attributes mark a hidden file.
pub fn is_hidden_attributes(attributes: u32) -> (r: bool)
    ensures
        r == (attributes & HIDDEN_ATTRIBUTE != 0),
{
    attributes & HIDDEN_ATTRIBUTE != 0
}

/// The root path of a drive letter: the letter, `:` and `\`.
pub open spec fn drive_root_spec(letter: char) -> Seq<char> {
    seq![letter, ':', '\\']
}

/// The drive with the given letter, sizes unknown.
pub fn drive_for_letter(letter: char) -> (r: DriveInfo)
    ensures
        r.path@ == drive_root_spec(letter),
        r.name@ == "Local Disk ("@ + seq![letter, ':', ')'],
        r.total_space == 0,
        r.free_space == 0,
{
    let mut path = String::new();
    push_char(&mut path, letter);
    push_char(&mut path, ':');
    push_char(&mut path, '\\');
    let mut name = String::from_str("Local Disk (");
    push_char(&mut name, letter);
    push_char(&mut name, ':');
    push_char(&mut name, ')');
    assert(path@ =~= drive_root_spec(letter));
    assert(name@ =~= "Local Disk ("@ + seq![letter, ':', ')']);
    DriveInfo { name, path, total_space: 0, free_space: 0 }
}

/// The drive letters looked at, `A` to `Z`.
pub fn drive_letters() -> (r: Vec<char>)
    ensures
        r@.len() == 26,
        forall|i: int| 0 <= i < 26 ==> #[trigger] r@[i] == ((65 + i) as char),
{
    let mut r: Vec<char> = Vec::new();
    let mut b: u8 = 65;
    while b <= 90
        invariant
            65 <= b <= 91,
            r@.len() == b - 65,
            forall|i: int| 0 <= i < r@.len() ==> #[trigger] r@[i] == ((65 + i) as char),
        decreases 91 - b,
    {
        r.push(b as char);
        b = b + 1;
    }
    r
}

} // verus!
