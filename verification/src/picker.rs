//! The entries of the file picker and their order.
//!
//! The picker shows a directory without its hidden entries: the parent
//! directory first, then the directories, then the files, each group by
//! name without regard to case.

use vstd::prelude::*;
use vstd::seq_lib::to_multiset_insert;
use vstd::string::StringExecFns;
use crate::session::{entry_views, FileEntry, FileEntryView};
use crate::text::{str_eq, to_chars};

verus! {

/// The lowercase form of a string, as `str::to_lowercase` gives it.
pub uninterp spec fn lowercase(s: Seq<char>) -> Seq<char>;

/// Calls `str::to_lowercase`. The result follows the Unicode case mappings
/// and is a function of the string alone; it is named, not spelled out.
#[verifier::external_body]
pub(crate) fn to_lowercase(s: &str) -> (lower: String)
    ensures
        lower@ == lowercase(s@),
{
    s.to_lowercase()
}

/// Whether `a` comes before `b` in the order of strings: at the first
/// place where they differ `a` has the smaller code point, or `a` ends
/// there and `b` goes on.
pub open spec fn lex_less(a: Seq<char>, b: Seq<char>) -> bool
    decreases a.len(),
{
    if b.len() == 0 {
        false
    } else if a.len() == 0 {
        true
    } else if a[0] != b[0] {
        a[0] < b[0]
    } else {
        lex_less(a.drop_first(), b.drop_first())
    }
}

/// Whether `a` comes before `b` in the order of strings.
pub fn is_lex_less(a: &Vec<char>, b: &Vec<char>) -> (less: bool)
    ensures
        less == lex_less(a@, b@),
{
    let mut i: usize = 0;
    assert(a@.subrange(0, a@.len() as int) =~= a@);
    assert(b@.subrange(0, b@.len() as int) =~= b@);
    while i < a.len() && i < b.len() && a[i] == b[i]
        invariant
            i <= a@.len(),
            i <= b@.len(),
            lex_less(a@, b@) == lex_less(
                a@.subrange(i as int, a@.len() as int),
                b@.subrange(i as int, b@.len() as int),
            ),
        decreases a@.len() - i,
    {
        assert(a@.subrange(i as int, a@.len() as int).drop_first() =~= a@.subrange(
            i as int + 1,
            a@.len() as int,
        ));
        assert(b@.subrange(i as int, b@.len() as int).drop_first() =~= b@.subrange(
            i as int + 1,
            b@.len() as int,
        ));
        i += 1;
    }
    if i >= b.len() {
        false
    } else if i >= a.len() {
        true
    } else {
        a[i] < b[i]
    }
}

/// The group of an entry: 0 for the parent directory, 1 for a directory, 2
/// for a file.
pub open spec fn entry_rank(entry: FileEntryView) -> int {
    if entry.name == ".."@ {
        0
    } else if entry.is_dir {
        1
    } else {
        2
    }
}

/// Whether `a` is shown before `b`: it is in an earlier group, or in the
/// same group with a name that comes first when case is set aside.
pub open spec fn entry_before(a: FileEntryView, b: FileEntryView) -> bool {
    entry_rank(a) < entry_rank(b) || (entry_rank(a) == entry_rank(b) && lex_less(
        lowercase(a.name),
        lowercase(b.name),
    ))
}

fn rank_of(entry: &FileEntry) -> (rank: u8)
    ensures
        rank == entry_rank(entry@),
{
    if str_eq(entry.name.as_str(), "..") {
        0
    } else if entry.is_dir {
        1
    } else {
        2
    }
}

/// Whether `a` is shown before `b`.
pub fn comes_before(a: &FileEntry, b: &FileEntry) -> (before: bool)
    ensures
        before == entry_before(a@, b@),
{
    let rank_a = rank_of(a);
    let rank_b = rank_of(b);
    if rank_a != rank_b {
        rank_a < rank_b
    } else {
        let lower_a = to_chars(to_lowercase(a.name.as_str()).as_str());
        let lower_b = to_chars(to_lowercase(b.name.as_str()).as_str());
        is_lex_less(&lower_a, &lower_b)
    }
}

/// An entry together with what it is ordered by, worked out once.
struct Keyed {
    entry: FileEntry,
    rank: u8,
    lower: Vec<char>,
}

impl Keyed {
    /// The rank and the lowercase name are those of the entry.
    spec fn well_keyed(self) -> bool {
        self.rank == entry_rank(self.entry@) && self.lower@ == lowercase(self.entry.name@)
    }

    fn new(entry: FileEntry) -> (keyed: Keyed)
        ensures
            keyed.well_keyed(),
            keyed.entry == entry,
    {
        let rank = rank_of(&entry);
        let lower = to_chars(to_lowercase(entry.name.as_str()).as_str());
        Keyed { entry, rank, lower }
    }

    fn comes_before(&self, other: &Keyed) -> (before: bool)
        requires
            self.well_keyed(),
            other.well_keyed(),
        ensures
            before == entry_before(self.entry@, other.entry@),
    {
        if self.rank != other.rank {
            self.rank < other.rank
        } else {
            is_lex_less(&self.lower, &other.lower)
        }
    }
}

/// The entries of a sequence of keyed entries.
spec fn keyed_views(keyed: Seq<Keyed>) -> Seq<FileEntryView> {
    Seq::new(keyed.len(), |i: int| keyed[i].entry@)
}

/// Whether every entry of the sequence has its own keys.
spec fn all_well_keyed(keyed: Seq<Keyed>) -> bool {
    forall|i: int| 0 <= i < keyed.len() ==> (#[trigger] keyed[i]).well_keyed()
}

/// Where `entry` goes into `shown`: before the first entry that it is
/// shown before, at the end if there is none.
pub open spec fn insert_at(shown: Seq<FileEntryView>, entry: FileEntryView) -> int
    decreases shown.len(),
{
    if shown.len() == 0 || entry_before(entry, shown[0]) {
        0
    } else {
        1 + insert_at(shown.drop_first(), entry)
    }
}

/// The entries in the order shown. Entries that neither is shown before
/// the other stay in the order they came in.
pub open spec fn shown_order(entries: Seq<FileEntryView>) -> Seq<FileEntryView>
    decreases entries.len(),
{
    if entries.len() == 0 {
        Seq::empty()
    } else {
        let shown = shown_order(entries.drop_last());
        shown.insert(insert_at(shown, entries.last()), entries.last())
    }
}

/// A hidden entry: its name starts with a dot.
pub open spec fn is_hidden(name: Seq<char>) -> bool {
    name.len() > 0 && name[0] == '.'
}

/// The entries that are not hidden, in order.
pub open spec fn visible(found: Seq<FileEntryView>) -> Seq<FileEntryView>
    decreases found.len(),
{
    if found.len() == 0 {
        Seq::empty()
    } else if is_hidden(found.last().name) {
        visible(found.drop_last())
    } else {
        visible(found.drop_last()).push(found.last())
    }
}

/// The entry for the parent directory at `path`.
pub open spec fn parent_entry(path: Seq<char>) -> FileEntryView {
    FileEntryView { name: ".."@, path, is_dir: true }
}

/// What the picker lists for a directory with the entries `found` and the
/// parent `parent`, before ordering.
pub open spec fn listed_entries(parent: Option<Seq<char>>, found: Seq<FileEntryView>) -> Seq<
    FileEntryView,
> {
    match parent {
        Some(path) => visible(found).push(parent_entry(path)),
        None => visible(found),
    }
}

/// Whether no entry is shown before an earlier one.
pub open spec fn is_shown_order(entries: Seq<FileEntryView>) -> bool {
    forall|i: int, j: int|
        0 <= i < j < entries.len() ==> !entry_before(#[trigger] entries[j], #[trigger] entries[i])
}

fn starts_with_dot(name: &str) -> (hidden: bool)
    ensures
        hidden == is_hidden(name@),
{
    let chars = to_chars(name);
    chars.len() > 0 && chars[0] == '.'
}

fn place(shown: &mut Vec<Keyed>, entry: FileEntry)
    requires
        all_well_keyed(old(shown)@),
    ensures
        all_well_keyed(final(shown)@),
        keyed_views(final(shown)@) == keyed_views(old(shown)@).insert(
            insert_at(keyed_views(old(shown)@), entry@),
            entry@,
        ),
{
    let item = Keyed::new(entry);
    let ghost views = keyed_views(shown@);
    let n = shown.len();
    let mut k: usize = 0;
    assert(views.subrange(0, n as int) =~= views);
    while k < n && !item.comes_before(&shown[k])
        invariant
            k <= n == shown@.len(),
            item.well_keyed(),
            item.entry@ == entry@,
            all_well_keyed(shown@),
            views == keyed_views(shown@),
            insert_at(views, entry@) == k + insert_at(views.subrange(k as int, n as int), entry@),
        decreases n - k,
    {
        assert(views.subrange(k as int, n as int).drop_first() =~= views.subrange(
            k as int + 1,
            n as int,
        ));
        k += 1;
    }
    shown.insert(k, item);
    assert(keyed_views(shown@) =~= views.insert(k as int, entry@));
}

/// The entries of the file picker for a directory.
///
/// `found` is what the directory holds and `parent` the path of its parent,
/// if it has one. Hidden entries are left out, an entry `..` for the parent
/// is added, and the result is ordered: the parent first, then the
/// directories, then the files, each group by lowercase name.
pub fn load_entries(parent: Option<String>, found: &Vec<FileEntry>) -> (shown: Vec<FileEntry>)
    ensures
        entry_views(shown@) == shown_order(listed_entries(opt_path(parent), entry_views(found@))),
{
    let mut ordered: Vec<Keyed> = Vec::new();
    let ghost all = entry_views(found@);
    let mut i: usize = 0;
    assert(all.take(0) =~= Seq::<FileEntryView>::empty());
    assert(keyed_views(ordered@) =~= Seq::<FileEntryView>::empty());
    while i < found.len()
        invariant
            i <= found@.len(),
            all == entry_views(found@),
            all_well_keyed(ordered@),
            keyed_views(ordered@) == shown_order(visible(all.take(i as int))),
        decreases found@.len() - i,
    {
        proof {
            let next = all.take(i + 1);
            assert(next.drop_last() =~= all.take(i as int));
            assert(next.last() == found@[i as int]@);
        }
        if !starts_with_dot(found[i].name.as_str()) {
            let entry = FileEntry {
                name: found[i].name.clone(),
                path: found[i].path.clone(),
                is_dir: found[i].is_dir,
            };
            proof {
                let kept = visible(all.take(i as int)).push(entry@);
                assert(kept.drop_last() =~= visible(all.take(i as int)));
            }
            place(&mut ordered, entry);
        }
        i += 1;
    }
    assert(all.take(found@.len() as int) =~= all);
    match parent {
        Some(path) => {
            let entry = FileEntry { name: String::from_str(".."), path, is_dir: true };
            proof {
                let kept = visible(all).push(entry@);
                assert(kept.drop_last() =~= visible(all));
            }
            place(&mut ordered, entry);
        },
        None => {},
    }
    let mut shown: Vec<FileEntry> = Vec::new();
    let mut j: usize = 0;
    while j < ordered.len()
        invariant
            j <= ordered@.len(),
            shown@.len() == j,
            forall|at: int| 0 <= at < j ==> shown@[at]@ == ordered@[at].entry@,
        decreases ordered@.len() - j,
    {
        let entry = &ordered[j].entry;
        shown.push(
            FileEntry { name: entry.name.clone(), path: entry.path.clone(), is_dir: entry.is_dir },
        );
        j += 1;
    }
    assert(entry_views(shown@) =~= keyed_views(ordered@));
    shown
}

/// The text of an optional path.
pub open spec fn opt_path(path: Option<String>) -> Option<Seq<char>> {
    match path {
        Some(path) => Some(path@),
        None => None,
    }
}

/// No string comes before itself, and of two strings at most one comes
/// before the other.
pub proof fn lemma_lex_less_asymmetric(a: Seq<char>, b: Seq<char>)
    ensures
        !(lex_less(a, b) && lex_less(b, a)),
    decreases a.len(),
{
    if a.len() > 0 && b.len() > 0 && a[0] == b[0] {
        lemma_lex_less_asymmetric(a.drop_first(), b.drop_first());
    }
}

/// The order of strings is transitive.
pub proof fn lemma_lex_less_transitive(a: Seq<char>, b: Seq<char>, c: Seq<char>)
    requires
        lex_less(a, b),
        lex_less(b, c),
    ensures
        lex_less(a, c),
    decreases a.len(),
{
    if a.len() > 0 && b.len() > 0 && c.len() > 0 && a[0] == b[0] && b[0] == c[0] {
        lemma_lex_less_transitive(a.drop_first(), b.drop_first(), c.drop_first());
    }
}

/// The order in which entries are shown is transitive, and of two entries
/// at most one is shown before the other.
pub proof fn lemma_entry_before_is_strict_order(a: FileEntryView, b: FileEntryView, c: FileEntryView)
    ensures
        !(entry_before(a, b) && entry_before(b, a)),
        entry_before(a, b) && entry_before(b, c) ==> entry_before(a, c),
{
    lemma_lex_less_asymmetric(lowercase(a.name), lowercase(b.name));
    if entry_before(a, b) && entry_before(b, c) && entry_rank(a) == entry_rank(b) && entry_rank(b)
        == entry_rank(c) {
        lemma_lex_less_transitive(lowercase(a.name), lowercase(b.name), lowercase(c.name));
    }
}

/// Where an entry goes, nothing in front of it is shown after it, and what
/// stands there is shown after it.
proof fn lemma_insert_at(shown: Seq<FileEntryView>, entry: FileEntryView)
    ensures
        0 <= insert_at(shown, entry) <= shown.len(),
        forall|i: int| 0 <= i < insert_at(shown, entry) ==> !entry_before(entry, #[trigger] shown[i]),
        insert_at(shown, entry) < shown.len() ==> entry_before(
            entry,
            shown[insert_at(shown, entry)],
        ),
    decreases shown.len(),
{
    if shown.len() > 0 && !entry_before(entry, shown[0]) {
        let rest = shown.drop_first();
        lemma_insert_at(rest, entry);
        assert forall|i: int| 0 <= i < insert_at(shown, entry) implies !entry_before(
            entry,
            #[trigger] shown[i],
        ) by {
            if i > 0 {
                assert(shown[i] == rest[i - 1]);
            }
        }
        if insert_at(shown, entry) < shown.len() {
            assert(shown[insert_at(shown, entry)] == rest[insert_at(rest, entry)]);
        }
    }
}

/// The entries are shown in order: no entry is shown before an earlier one,
/// and the entries shown are those listed, each as often as it was listed.
pub proof fn lemma_shown_order_is_ordered(entries: Seq<FileEntryView>)
    ensures
        is_shown_order(shown_order(entries)),
        shown_order(entries).to_multiset() == entries.to_multiset(),
        shown_order(entries).len() == entries.len(),
    decreases entries.len(),
{
    if entries.len() == 0 {
        assert(shown_order(entries) =~= entries);
    } else {
        let shown = shown_order(entries.drop_last());
        let entry = entries.last();
        let k = insert_at(shown, entry);
        let out = shown.insert(k, entry);
        lemma_shown_order_is_ordered(entries.drop_last());
        lemma_insert_at(shown, entry);
        to_multiset_insert(shown, k, entry);
        assert(entries.drop_last().push(entry) =~= entries);
        vstd::seq_lib::to_multiset_build(entries.drop_last(), entry);
        assert forall|i: int, j: int| 0 <= i < j < out.len() implies !entry_before(
            #[trigger] out[j],
            #[trigger] out[i],
        ) by {
            if j == k {
                assert(out[i] == shown[i]);
            } else if i == k {
                assert(out[j] == shown[j - 1]);
                if j - 1 == k {
                    lemma_entry_before_is_strict_order(entry, shown[k], entry);
                } else {
                    lemma_entry_before_is_strict_order(shown[j - 1], entry, shown[k]);
                    assert(!entry_before(shown[j - 1], shown[k]));
                }
            } else {
                let old_i = if i < k {
                    i
                } else {
                    i - 1
                };
                let old_j = if j < k {
                    j
                } else {
                    j - 1
                };
                assert(out[i] == shown[old_i]);
                assert(out[j] == shown[old_j]);
            }
        }
    }
}

} // verus!
