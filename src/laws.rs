//! Properties of verification that hold for every archive, directory and disk.

use vstd::prelude::*;
use crate::archive::{entries_of, Archive, EntryModel};
use crate::engine::{entry_copied, entry_verdict, faithful_copy, verdict_from, verdict_of, Disk, FileState};
use crate::naming::{confined, join_spec, lemma_join_within, within};

verus! {

proof fn lemma_verdict_from(entries: Seq<EntryModel>, dir: Seq<char>, disk: Disk, i: int)
    requires
        0 <= i <= entries.len(),
    ensures
        (verdict_from(entries, dir, disk, i) is Verified) <==> forall|j: int|
            i <= j < entries.len() ==> entry_copied(#[trigger] entries[j], dir, disk),
    decreases entries.len() - i,
{
    if i < entries.len() {
        lemma_verdict_from(entries, dir, disk, i + 1);
    }
}

/// An archive verifies against a directory exactly when every entry's header
/// reads and every non-directory entry has a confined path, readable content
/// of its declared size, and a readable file at its path under the directory
/// with byte-identical content.
pub proof fn law_verified_iff_exact_copy(entries: Seq<EntryModel>, dir: Seq<char>, disk: Disk)
    ensures
        (verdict_of(entries, dir, disk) is Verified) <==> faithful_copy(entries, dir, disk),
{
    lemma_verdict_from(entries, dir, disk, 0);
}

/// Two verifications of one archive against an unchanged disk agree: a
/// verification leaves the archive's entries as they were, and the verdict
/// depends on the entries, the directory and the disk alone.
pub proof fn law_verification_repeatable(
    first: Archive,
    second: Archive,
    dir: Seq<char>,
    disk: Disk,
)
    requires
        entries_of(second) == entries_of(first),
    ensures
        verdict_of(entries_of(first), dir, disk) == verdict_of(entries_of(second), dir, disk),
{
}

proof fn lemma_inside_only(entries: Seq<EntryModel>, dir: Seq<char>, d1: Disk, d2: Disk, i: int)
    requires
        0 <= i <= entries.len(),
        forall|p: Seq<char>| #[trigger]
            within(dir, p) ==> d1.contains_key(p) == d2.contains_key(p) && (d1.contains_key(p)
                ==> d1[p] == d2[p]),
    ensures
        verdict_from(entries, dir, d1, i) == verdict_from(entries, dir, d2, i),
    decreases entries.len() - i,
{
    if i < entries.len() {
        let e = entries[i];
        if e.3 is Some && confined(e.3->0) {
            lemma_join_within(dir, e.3->0);
        }
        assert(entry_verdict(e, i, dir, d1) == entry_verdict(e, i, dir, d2));
        lemma_inside_only(entries, dir, d1, d2, i + 1);
    }
}

/// Only what lies inside the extracted directory matters: two disks that
/// agree on every path inside `dir` give the same verdict, whatever they hold
/// elsewhere.
pub proof fn law_only_directory_matters(entries: Seq<EntryModel>, dir: Seq<char>, d1: Disk, d2: Disk)
    requires
        forall|p: Seq<char>| #[trigger]
            within(dir, p) ==> d1.contains_key(p) == d2.contains_key(p) && (d1.contains_key(p)
                ==> d1[p] == d2[p]),
    ensures
        verdict_of(entries, dir, d1) == verdict_of(entries, dir, d2),
{
    lemma_inside_only(entries, dir, d1, d2, 0);
}

/// A file entry whose path would leave the extracted directory can never be
/// verified, whatever the disk holds.
pub proof fn law_escaping_entry_blocks(entries: Seq<EntryModel>, dir: Seq<char>, disk: Disk, i: int)
    requires
        0 <= i < entries.len(),
        !entries[i].1,
        entries[i].3 is None || !confined(entries[i].3->0),
    ensures
        !(verdict_of(entries, dir, disk) is Verified),
{
    law_verified_iff_exact_copy(entries, dir, disk);
    assert(!entry_copied(entries[i], dir, disk));
}

/// Extraction followed by verification succeeds: when every entry reads,
/// every file entry has a confined path and content of its declared size, and
/// that content was written as a readable file at its path under the
/// directory, the archive verifies.
pub proof fn law_extraction_verifies(entries: Seq<EntryModel>, dir: Seq<char>, disk: Disk)
    requires
        forall|i: int|
            0 <= i < entries.len() ==> (#[trigger] entries[i]).0 && (!entries[i].1 ==> {
                &&& entries[i].3 is Some
                &&& confined(entries[i].3->0)
                &&& entries[i].4 is Some
                &&& entries[i].4->0.len() == entries[i].2
                &&& disk.contains_key(join_spec(dir, entries[i].3->0))
                &&& disk[join_spec(dir, entries[i].3->0)] == FileState::Readable(entries[i].4->0)
            }),
    ensures
        verdict_of(entries, dir, disk) is Verified,
{
    law_verified_iff_exact_copy(entries, dir, disk);
}

} // verus!
