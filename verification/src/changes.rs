//! The changes in a working tree: counted by kind, with the first few of them listed.

use vstd::prelude::*;

verus! {

/// The kinds of change that are told apart.
#[derive(Clone, Copy, PartialEq, Eq, Structural)]
pub enum FileStatusType {
    Modified,
    Untracked,
    Deleted,
}

/// Bits of a file's status, as git2 numbers them: the file is new in the index.
pub const INDEX_NEW: u32 = 0x1;

/// The file is modified in the index.
pub const INDEX_MODIFIED: u32 = 0x2;

/// The file is deleted in the index.
pub const INDEX_DELETED: u32 = 0x4;

/// The file is renamed in the index.
pub const INDEX_RENAMED: u32 = 0x8;

/// The file is new in the working tree.
pub const WT_NEW: u32 = 0x80;

/// The file is modified in the working tree.
pub const WT_MODIFIED: u32 = 0x100;

/// The file is deleted in the working tree.
pub const WT_DELETED: u32 = 0x200;

/// The file is renamed in the working tree.
pub const WT_RENAMED: u32 = 0x800;

/// The bits of a file that counts as untracked.
pub const UNTRACKED: u32 = WT_NEW | INDEX_NEW;

/// The bits of a file that counts as modified.
pub const MODIFIED: u32 = WT_MODIFIED | INDEX_MODIFIED | WT_RENAMED | INDEX_RENAMED;

/// The bits of a file that counts as deleted.
pub const DELETED: u32 = WT_DELETED | INDEX_DELETED;

/// How many changes are listed at most.
pub const MAX_LISTED: usize = 15;

/// The status of one file, with the status bits as git2 gives them.
pub struct StatusEntry {
    pub path: String,
    pub status: u32,
}

/// What is kept of the changes in a working tree.
pub struct Changes {
    pub untracked: usize,
    pub modified: usize,
    pub deleted: usize,
    pub changed_files: Vec<(String, FileStatusType)>,
}

/// Whether `status` has a bit of `mask`.
pub open spec fn meets(status: u32, mask: u32) -> bool {
    status & mask != 0
}

/// How many entries have a bit of `mask`.
pub open spec fn count(entries: Seq<StatusEntry>, mask: u32) -> nat
    decreases entries.len(),
{
    if entries.len() == 0 {
        0
    } else {
        count(entries.drop_last(), mask) + if meets(entries.last().status, mask) {
            1nat
        } else {
            0nat
        }
    }
}

/// The changes that one entry stands for: up to three of the same file, in this order.
pub open spec fn changes_of(e: StatusEntry) -> Seq<(Seq<char>, FileStatusType)> {
    let none = Seq::<(Seq<char>, FileStatusType)>::empty();
    let untracked = if meets(e.status, UNTRACKED) {
        none.push((e.path@, FileStatusType::Untracked))
    } else {
        none
    };
    let modified = if meets(e.status, MODIFIED) {
        untracked.push((e.path@, FileStatusType::Modified))
    } else {
        untracked
    };
    if meets(e.status, DELETED) {
        modified.push((e.path@, FileStatusType::Deleted))
    } else {
        modified
    }
}

/// All the changes that the entries stand for, in order.
pub open spec fn all_changes(entries: Seq<StatusEntry>) -> Seq<(Seq<char>, FileStatusType)>
    decreases entries.len(),
{
    if entries.len() == 0 {
        Seq::empty()
    } else {
        all_changes(entries.drop_last()) + changes_of(entries.last())
    }
}

/// A list of changes as characters.
pub open spec fn files_view(files: Seq<(String, FileStatusType)>) -> Seq<
    (Seq<char>, FileStatusType),
> {
    files.map_values(|f: (String, FileStatusType)| (f.0@, f.1))
}

/// The first changes, as many as are listed.
pub open spec fn listed(all: Seq<(Seq<char>, FileStatusType)>) -> Seq<
    (Seq<char>, FileStatusType),
> {
    if all.len() <= MAX_LISTED {
        all
    } else {
        all.take(MAX_LISTED as int)
    }
}

/// Every change is counted once: the three counts add up to the number of changes.
pub proof fn counts_add_up(entries: Seq<StatusEntry>)
    ensures
        count(entries, UNTRACKED) + count(entries, MODIFIED) + count(entries, DELETED)
            == all_changes(entries).len(),
        count(entries, UNTRACKED) <= entries.len(),
        count(entries, MODIFIED) <= entries.len(),
        count(entries, DELETED) <= entries.len(),
    decreases entries.len(),
{
    if entries.len() > 0 {
        counts_add_up(entries.drop_last());
    }
}

/// What is listed are all the changes, or as many as are listed at most; so what the counts
/// add up to beyond the list is what the list leaves out.
pub proof fn list_is_full_or_complete(entries: Seq<StatusEntry>)
    ensures
        ({
            let total = count(entries, UNTRACKED) + count(entries, MODIFIED) + count(
                entries,
                DELETED,
            );
            listed(all_changes(entries)).len() == if total <= MAX_LISTED {
                total
            } else {
                MAX_LISTED as nat
            }
        }),
{
    counts_add_up(entries);
}

/// Which status stands for a change of which kind: new files, in the working tree or the
/// index, are untracked; files that are modified or renamed in either are modified; files
/// that are gone from either are deleted.
pub proof fn kinds_by_status(status: u32)
    ensures
        meets(status, UNTRACKED) <==> status & 0x80 != 0 || status & 0x1 != 0,
        meets(status, MODIFIED) <==> status & 0x100 != 0 || status & 0x2 != 0 || status & 0x800 != 0
            || status & 0x8 != 0,
        meets(status, DELETED) <==> status & 0x200 != 0 || status & 0x4 != 0,
{
    assert((status & (0x80u32 | 0x1u32) != 0) <==> status & 0x80 != 0 || status & 0x1 != 0)
        by (bit_vector);
    assert((status & (0x100u32 | 0x2u32 | 0x800u32 | 0x8u32) != 0) <==> status & 0x100 != 0
        || status & 0x2 != 0 || status & 0x800 != 0 || status & 0x8 != 0) by (bit_vector);
    assert((status & (0x200u32 | 0x4u32) != 0) <==> status & 0x200 != 0 || status & 0x4 != 0)
        by (bit_vector);
}

/// A file is among the changes of an entry with a kind exactly where the entry is its own
/// and has a status of that kind.
pub proof fn changes_agree_with_status(e: StatusEntry, path: Seq<char>)
    ensures
        changes_of(e).contains((path, FileStatusType::Untracked)) <==> path == e.path@ && (e.status
            & 0x80 != 0 || e.status & 0x1 != 0),
        changes_of(e).contains((path, FileStatusType::Modified)) <==> path == e.path@ && (e.status
            & 0x100 != 0 || e.status & 0x2 != 0 || e.status & 0x800 != 0 || e.status & 0x8 != 0),
        changes_of(e).contains((path, FileStatusType::Deleted)) <==> path == e.path@ && (e.status
            & 0x200 != 0 || e.status & 0x4 != 0),
        changes_of(e).no_duplicates(),
{
    kinds_by_status(e.status);
    let c = changes_of(e);
    let u = (e.path@, FileStatusType::Untracked);
    let m = (e.path@, FileStatusType::Modified);
    let d = (e.path@, FileStatusType::Deleted);
    let i: int = if meets(e.status, UNTRACKED) {
        1
    } else {
        0
    };
    let j: int = if meets(e.status, MODIFIED) {
        i + 1
    } else {
        i
    };
    if meets(e.status, UNTRACKED) {
        assert(c[0] == u);
    }
    if meets(e.status, MODIFIED) {
        assert(c[i] == m);
    }
    if meets(e.status, DELETED) {
        assert(c[j] == d);
    }
}

/// Of one file, what is untracked comes before what is modified, and that before what is
/// deleted.
pub proof fn changes_of_a_file_have_an_order(e: StatusEntry, i: int, j: int)
    requires
        0 <= i < j < changes_of(e).len(),
    ensures
        changes_of(e)[j].1 != FileStatusType::Untracked,
        changes_of(e)[i].1 != FileStatusType::Deleted,
        changes_of(e)[i].1 != changes_of(e)[j].1,
{
}

/// Files come one after the other: what two lists of entries stand for together is what the
/// first stands for and then what the second does, in the list as in the counts.
pub proof fn files_come_one_after_the_other(a: Seq<StatusEntry>, b: Seq<StatusEntry>, mask: u32)
    ensures
        all_changes(a + b) == all_changes(a) + all_changes(b),
        count(a + b, mask) == count(a, mask) + count(b, mask),
    decreases b.len(),
{
    if b.len() == 0 {
        assert(a + b =~= a);
        assert(all_changes(a) + all_changes(b) =~= all_changes(a));
    } else {
        assert((a + b).drop_last() =~= a + b.drop_last());
        files_come_one_after_the_other(a, b.drop_last(), mask);
        assert(all_changes(a) + all_changes(b) =~= all_changes(a) + all_changes(b.drop_last())
            + changes_of(b.last()));
    }
}

/// One entry stands for its own changes, and counts once for each kind that it has.
pub proof fn a_file_counts_once(e: StatusEntry, mask: u32)
    ensures
        all_changes(seq![e]) == changes_of(e),
        count(seq![e], mask) == (if e.status & mask != 0 {
            1nat
        } else {
            0nat
        }),
{
    reveal_with_fuel(all_changes, 2);
    reveal_with_fuel(count, 2);
    assert(seq![e].drop_last() =~= Seq::<StatusEntry>::empty());
    assert(Seq::<(Seq<char>, FileStatusType)>::empty() + changes_of(e) =~= changes_of(e));
}

/// The kinds that are listed agree with the counts: of each kind there are as many changes
/// as are counted of it.
pub proof fn kinds_agree_with_counts(entries: Seq<StatusEntry>)
    ensures
        of_kind(all_changes(entries), FileStatusType::Untracked) == count(entries, UNTRACKED),
        of_kind(all_changes(entries), FileStatusType::Modified) == count(entries, MODIFIED),
        of_kind(all_changes(entries), FileStatusType::Deleted) == count(entries, DELETED),
    decreases entries.len(),
{
    if entries.len() > 0 {
        let before = all_changes(entries.drop_last());
        let e = entries.last();
        kinds_agree_with_counts(entries.drop_last());
        kinds_add_up(before, changes_of(e), FileStatusType::Untracked);
        kinds_add_up(before, changes_of(e), FileStatusType::Modified);
        kinds_add_up(before, changes_of(e), FileStatusType::Deleted);
        kinds_of_a_file(e);
        a_file_counts_once(e, UNTRACKED);
        a_file_counts_once(e, MODIFIED);
        a_file_counts_once(e, DELETED);
    }
}

/// How many of some changes are of a kind.
pub open spec fn of_kind(changes: Seq<(Seq<char>, FileStatusType)>, kind: FileStatusType) -> nat
    decreases changes.len(),
{
    if changes.len() == 0 {
        0
    } else {
        of_kind(changes.drop_last(), kind) + if changes.last().1 == kind {
            1nat
        } else {
            0nat
        }
    }
}

proof fn kinds_add_up(
    a: Seq<(Seq<char>, FileStatusType)>,
    b: Seq<(Seq<char>, FileStatusType)>,
    kind: FileStatusType,
)
    ensures
        of_kind(a + b, kind) == of_kind(a, kind) + of_kind(b, kind),
    decreases b.len(),
{
    if b.len() == 0 {
        assert(a + b =~= a);
    } else {
        assert((a + b).drop_last() =~= a + b.drop_last());
        kinds_add_up(a, b.drop_last(), kind);
    }
}

proof fn kinds_of_a_file(e: StatusEntry)
    ensures
        of_kind(changes_of(e), FileStatusType::Untracked) == count(seq![e], UNTRACKED),
        of_kind(changes_of(e), FileStatusType::Modified) == count(seq![e], MODIFIED),
        of_kind(changes_of(e), FileStatusType::Deleted) == count(seq![e], DELETED),
{
    reveal_with_fuel(of_kind, 4);
    a_file_counts_once(e, UNTRACKED);
    a_file_counts_once(e, MODIFIED);
    a_file_counts_once(e, DELETED);
    let none = Seq::<(Seq<char>, FileStatusType)>::empty();
    let u = (e.path@, FileStatusType::Untracked);
    let m = (e.path@, FileStatusType::Modified);
    let d = (e.path@, FileStatusType::Deleted);
    assert(none.push(u).drop_last() =~= none);
    assert(none.push(m).drop_last() =~= none);
    assert(none.push(d).drop_last() =~= none);
    assert(none.push(u).push(m).drop_last() =~= none.push(u));
    assert(none.push(u).push(d).drop_last() =~= none.push(u));
    assert(none.push(m).push(d).drop_last() =~= none.push(m));
    assert(none.push(u).push(m).push(d).drop_last() =~= none.push(u).push(m));
}

/// The list holds the first changes in their order, and at most fifteen of them: fewer only
/// where there are fewer.
pub proof fn the_first_fifteen_are_listed(all: Seq<(Seq<char>, FileStatusType)>)
    ensures
        listed(all).len() == (if all.len() < 15 {
            all.len()
        } else {
            15
        }),
        forall|i: int| 0 <= i < listed(all).len() ==> #[trigger] listed(all)[i] == all[i],
{
}

/// `git2::Status::intersects`: whether two sets of status bits have a bit in common.
#[verifier::external_body]
fn status_intersects(status: u32, mask: u32) -> (r: bool)
    ensures
        r == (status & mask != 0),
{
    git2::Status::from_bits_retain(status).intersects(git2::Status::from_bits_retain(mask))
}

/// Lists a change, where there is room for it.
fn list_change(files: &mut Vec<(String, FileStatusType)>, path: &String, kind: FileStatusType)
    ensures
        old(files)@.len() < MAX_LISTED ==> files_view(final(files)@) == files_view(
            old(files)@,
        ).push((path@, kind)),
        old(files)@.len() >= MAX_LISTED ==> final(files)@ == old(files)@,
{
    if files.len() < MAX_LISTED {
        files.push((path.clone(), kind));
        assert(files_view(files@) =~= files_view(old(files)@).push((path@, kind)));
    }
}

/// Counts the changes that the entries stand for, by kind, and lists the first of them.
pub fn collect_changes(entries: &Vec<StatusEntry>) -> (r: Changes)
    requires
        3 * entries@.len() <= usize::MAX,
    ensures
        r.untracked == count(entries@, UNTRACKED),
        r.modified == count(entries@, MODIFIED),
        r.deleted == count(entries@, DELETED),
        files_view(r.changed_files@) == listed(all_changes(entries@)),
{
    let mut r = Changes { untracked: 0, modified: 0, deleted: 0, changed_files: Vec::new() };
    let mut i: usize = 0;
    assert(entries@.take(0) =~= Seq::empty());
    assert(files_view(r.changed_files@) =~= Seq::empty());
    while i < entries.len()
        invariant
            i <= entries@.len(),
            3 * entries@.len() <= usize::MAX,
            r.untracked == count(entries@.take(i as int), UNTRACKED),
            r.modified == count(entries@.take(i as int), MODIFIED),
            r.deleted == count(entries@.take(i as int), DELETED),
            files_view(r.changed_files@) == listed(all_changes(entries@.take(i as int))),
        decreases entries@.len() - i,
    {
        let ghost before = all_changes(entries@.take(i as int));
        let ghost head = entries@.take(i + 1);
        assert(head.drop_last() =~= entries@.take(i as int));
        proof {
            counts_add_up(entries@.take(i as int));
        }
        let entry = &entries[i];
        if status_intersects(entry.status, UNTRACKED) {
            r.untracked = r.untracked + 1;
            list_change(&mut r.changed_files, &entry.path, FileStatusType::Untracked);
        }
        if status_intersects(entry.status, MODIFIED) {
            r.modified = r.modified + 1;
            list_change(&mut r.changed_files, &entry.path, FileStatusType::Modified);
        }
        if status_intersects(entry.status, DELETED) {
            r.deleted = r.deleted + 1;
            list_change(&mut r.changed_files, &entry.path, FileStatusType::Deleted);
        }
        assert(files_view(r.changed_files@) =~= listed(before + changes_of(*entry)));
        i = i + 1;
    }
    assert(entries@.take(i as int) =~= entries@);
    r
}

} // verus!
