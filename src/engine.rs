//! The verification engine: proves, entry by entry, that an extracted
//! directory is a byte-exact copy of an archive, and gates deletion on it.
//!
//! The file system is reached only through two probes handed in by the
//! caller: `stat`, which reports whether a file exists and its length, and
//! `read`, which returns its content. Both are only ever asked about paths
//! inside the extracted directory.

use vstd::prelude::*;
use crate::archive::{entries_of, entry_count, entry_data, entry_header, Archive, EntryModel};
use crate::naming::{confined, is_confined, join_spec, join_under, lemma_join_within, within};

verus! {

/// What `stat` reports of a path.
#[derive(Debug, Clone, Copy, PartialEq, Eq)]
pub enum Probe {
    /// No file exists at the path.
    Missing,
    /// A file of this many bytes exists at the path.
    Present(u64),
    /// The file system could not answer.
    Failed,
}

/// The result of verifying one archive.
#[derive(Debug, Clone, PartialEq, Eq)]
pub enum Outcome {
    /// Every file entry has a byte-identical copy on disk.
    Verified,
    /// The entry at `index` names a path that would leave the extracted directory.
    UnsafePath { index: usize },
    /// No file exists at `path`.
    MissingFile { path: String },
    /// The file at `path` has `actual` bytes where the archive declares `expected`.
    SizeMismatch { path: String, expected: u64, actual: u64 },
    /// The file at `path` differs in content from its archive entry.
    ContentMismatch { path: String },
    /// The file system failed while `path` was examined.
    Unreadable { path: String },
    /// The archive could not produce the entry at `index`.
    ArchiveFault { index: usize },
}

/// The mathematical form of an [`Outcome`].
pub enum Verdict {
    Verified,
    UnsafePath(int),
    MissingFile(Seq<char>),
    SizeMismatch(Seq<char>, int, int),
    ContentMismatch(Seq<char>),
    Unreadable(Seq<char>),
    ArchiveFault(int),
}

impl View for Outcome {
    type V = Verdict;

    open spec fn view(&self) -> Verdict {
        match self {
            Outcome::Verified => Verdict::Verified,
            Outcome::UnsafePath { index } => Verdict::UnsafePath(*index as int),
            Outcome::MissingFile { path } => Verdict::MissingFile(path@),
            Outcome::SizeMismatch { path, expected, actual } => Verdict::SizeMismatch(
                path@,
                *expected as int,
                *actual as int,
            ),
            Outcome::ContentMismatch { path } => Verdict::ContentMismatch(path@),
            Outcome::Unreadable { path } => Verdict::Unreadable(path@),
            Outcome::ArchiveFault { index } => Verdict::ArchiveFault(*index as int),
        }
    }
}

/// What the file system holds at a path, as the probes see it.
pub enum FileState {
    /// `stat` fails on the path.
    Unstatable,
    /// `stat` gives this length, but `read` fails.
    Unreadable(nat),
    /// A file with this content, which `read` returns.
    Readable(Seq<u8>),
}

/// A directory tree: the state of each path where something exists.
pub type Disk = Map<Seq<char>, FileState>;

/// How entry `i` fares against `disk` when the archive is extracted under `dir`.
pub open spec fn entry_verdict(e: EntryModel, i: int, dir: Seq<char>, disk: Disk) -> Verdict {
    if !e.0 {
        Verdict::ArchiveFault(i)
    } else if e.1 {
        Verdict::Verified
    } else if e.3 is None || !confined(e.3->0) {
        Verdict::UnsafePath(i)
    } else {
        let p = join_spec(dir, e.3->0);
        if !disk.contains_key(p) {
            Verdict::MissingFile(p)
        } else {
            match disk[p] {
                FileState::Unstatable => Verdict::Unreadable(p),
                FileState::Unreadable(m) => {
                    if m != e.2 {
                        Verdict::SizeMismatch(p, e.2 as int, m as int)
                    } else if e.4 is None {
                        Verdict::ArchiveFault(i)
                    } else {
                        Verdict::Unreadable(p)
                    }
                },
                FileState::Readable(c) => {
                    if c.len() != e.2 {
                        Verdict::SizeMismatch(p, e.2 as int, c.len() as int)
                    } else if e.4 is None {
                        Verdict::ArchiveFault(i)
                    } else if c != e.4->0 {
                        Verdict::ContentMismatch(p)
                    } else {
                        Verdict::Verified
                    }
                },
            }
        }
    }
}

/// The verdict of the entries from index `i` on: the first entry that fails
/// decides, and with none failing the archive is verified.
pub open spec fn verdict_from(entries: Seq<EntryModel>, dir: Seq<char>, disk: Disk, i: int) -> Verdict
    decreases entries.len() - i,
{
    if i < 0 || i >= entries.len() {
        Verdict::Verified
    } else {
        let v = entry_verdict(entries[i], i, dir, disk);
        if v is Verified {
            verdict_from(entries, dir, disk, i + 1)
        } else {
            v
        }
    }
}

/// The verdict of a whole archive against `disk`.
pub open spec fn verdict_of(entries: Seq<EntryModel>, dir: Seq<char>, disk: Disk) -> Verdict {
    verdict_from(entries, dir, disk, 0)
}

/// Entry `e` has an exact copy under `dir`: its header reads; a directory
/// entry needs nothing more; a file entry needs a confined path, readable
/// content of the declared size, and a readable file there with that content.
pub open spec fn entry_copied(e: EntryModel, dir: Seq<char>, disk: Disk) -> bool {
    &&& e.0
    &&& !e.1 ==> {
        &&& e.3 is Some
        &&& confined(e.3->0)
        &&& e.4 is Some
        &&& e.4->0.len() == e.2
        &&& disk.contains_key(join_spec(dir, e.3->0))
        &&& disk[join_spec(dir, e.3->0)] == FileState::Readable(e.4->0)
    }
}

/// Every entry of the archive has an exact copy under `dir`.
pub open spec fn faithful_copy(entries: Seq<EntryModel>, dir: Seq<char>, disk: Disk) -> bool {
    forall|i: int| 0 <= i < entries.len() ==> entry_copied(#[trigger] entries[i], dir, disk)
}

/// The probes report `disk` truthfully.
pub open spec fn probes_match<S: Fn(String) -> Probe, F: Fn(String) -> Option<Vec<u8>>>(
    stat: S,
    read: F,
    disk: Disk,
) -> bool {
    &&& forall|p: String, r: Probe| #[trigger]
        stat.ensures((p,), r) ==> match r {
            Probe::Missing => !disk.contains_key(p@),
            Probe::Failed => disk.contains_key(p@) && disk[p@] is Unstatable,
            Probe::Present(n) => disk.contains_key(p@) && match disk[p@] {
                FileState::Unstatable => false,
                FileState::Unreadable(m) => m == n,
                FileState::Readable(c) => c.len() == n,
            },
        }
    &&& forall|p: String, r: Option<Vec<u8>>| #[trigger]
        read.ensures((p,), r) ==> (disk.contains_key(p@) ==> match disk[p@] {
            FileState::Readable(c) => r matches Some(v) && v@ == c,
            FileState::Unreadable(_) => r is None,
            FileState::Unstatable => true,
        })
}

/// Whether `a` and `b` hold the same bytes.
pub fn same_bytes(a: &Vec<u8>, b: &Vec<u8>) -> (r: bool)
    ensures
        r == (a@ == b@),
{
    if a.len() != b.len() {
        return false;
    }
    let mut i: usize = 0;
    while i < a.len()
        invariant
            a.len() == b.len(),
            0 <= i <= a.len(),
            a@.subrange(0, i as int) == b@.subrange(0, i as int),
        decreases a.len() - i,
    {
        if a[i] != b[i] {
            assert(a@[i as int] != b@[i as int]);
            return false;
        }
        assert(a@.subrange(0, i + 1) =~= a@.subrange(0, i as int).push(a@[i as int]));
        assert(b@.subrange(0, i + 1) =~= b@.subrange(0, i as int).push(b@[i as int]));
        i = i + 1;
    }
    assert(a@ =~= a@.subrange(0, a.len() as int));
    assert(b@ =~= b@.subrange(0, b.len() as int));
    true
}

/// Verifies `archive` against the directory `dir`, entry by entry in archive
/// order, stopping at the first entry that fails. An entry whose header
/// cannot be read fails; directory entries are then skipped; a file entry
/// whose path would leave `dir` fails as unsafe; otherwise the file at its
/// path must exist, have the declared size, and hold the entry's content.
/// The archive's entries are left as they were, and the probes are asked only
/// about paths inside `dir`.
pub fn verify_archive<S, F>(archive: &mut Archive, dir: &str, stat: S, read: F) -> (r: Outcome) where
    S: Fn(String) -> Probe,
    F: Fn(String) -> Option<Vec<u8>>,

    requires
        forall|p: String| within(dir@, p@) ==> #[trigger] stat.requires((p,)),
        forall|p: String| within(dir@, p@) ==> #[trigger] read.requires((p,)),
    ensures
        entries_of(*final(archive)) == entries_of(*old(archive)),
        entries_of(*old(archive)).len() == 0 ==> r is Verified,
        forall|disk: Disk|
            #[trigger] probes_match(stat, read, disk) ==> r@ == verdict_of(
                entries_of(*old(archive)),
                dir@,
                disk,
            ),
        r matches Outcome::ArchiveFault { index } ==> index < entries_of(*old(archive)).len(),
        r matches Outcome::UnsafePath { index } ==> index < entries_of(*old(archive)).len() && {
            let e = entries_of(*old(archive))[index as int];
            e.0 && !e.1 && (e.3 is None || !confined(e.3->0))
        },
        r matches Outcome::MissingFile { path } ==> within(dir@, path@) && stat.ensures(
            (path,),
            Probe::Missing,
        ),
        r matches Outcome::SizeMismatch { path, expected, actual } ==> within(dir@, path@)
            && expected != actual && stat.ensures((path,), Probe::Present(actual)),
        r matches Outcome::Unreadable { path } ==> within(dir@, path@) && (stat.ensures(
            (path,),
            Probe::Failed,
        ) || read.ensures((path,), None::<Vec<u8>>)),
        r matches Outcome::ContentMismatch { path } ==> within(dir@, path@) && exists|
            k: int,
            v: Vec<u8>,
        |
            #![trigger read.ensures((path,), Some(v)), entries_of(*old(archive))[k]]
            0 <= k < entries_of(*old(archive)).len() && read.ensures((path,), Some(v))
                && entries_of(*old(archive))[k].4 is Some && v@ != entries_of(
                *old(archive),
            )[k].4->0,
{
    let ghost e0 = entries_of(*archive);
    let n = entry_count(archive);
    let mut i: usize = 0;
    while i < n
        invariant
            entries_of(*archive) == e0,
            e0 == entries_of(*old(archive)),
            n == e0.len(),
            0 <= i <= n,
            forall|p: String| within(dir@, p@) ==> #[trigger] stat.requires((p,)),
            forall|p: String| within(dir@, p@) ==> #[trigger] read.requires((p,)),
            forall|disk: Disk|
                #[trigger] probes_match(stat, read, disk) ==> verdict_of(e0, dir@, disk)
                    == verdict_from(e0, dir@, disk, i as int),
        decreases n - i,
    {
        let header = match entry_header(archive, i) {
            Ok(h) => h,
            Err(_) => {
                return Outcome::ArchiveFault { index: i };
            },
        };
        if !header.is_dir {
            let rel = match header.enclosed {
                Some(rel) => rel,
                None => {
                    return Outcome::UnsafePath { index: i };
                },
            };
            if !is_confined(rel.as_str()) {
                return Outcome::UnsafePath { index: i };
            }
            let path = join_under(dir, rel.as_str());
            proof {
                lemma_join_within(dir@, rel@);
            }
            let probe = stat(path.clone());
            let actual_size = match probe {
                Probe::Missing => {
                    return Outcome::MissingFile { path };
                },
                Probe::Failed => {
                    return Outcome::Unreadable { path };
                },
                Probe::Present(m) => m,
            };
            if actual_size != header.size {
                return Outcome::SizeMismatch { path, expected: header.size, actual: actual_size };
            }
            let expected = match entry_data(archive, i) {
                Ok(v) => v,
                Err(_) => {
                    return Outcome::ArchiveFault { index: i };
                },
            };
            let actual = match read(path.clone()) {
                Some(v) => v,
                None => {
                    return Outcome::Unreadable { path };
                },
            };
            if !same_bytes(&expected, &actual) {
                assert(read.ensures((path,), Some(actual)) && e0[i as int].4 is Some);
                return Outcome::ContentMismatch { path };
            }
        }
        i = i + 1;
    }
    Outcome::Verified
}

/// What reclamation decides for one archive.
#[derive(Debug, Clone, PartialEq, Eq)]
pub enum Decision {
    /// Verification succeeded in this call: the archive file may be deleted.
    Delete,
    /// Verification failed with this outcome: the archive file must stay.
    Keep(Outcome),
}

/// Decides whether the archive may be deleted: it verifies `archive` against
/// `dir` in this same call and answers `Delete` exactly when that
/// verification succeeds, otherwise `Keep` with the failing outcome.
pub fn reclaim<S, F>(archive: &mut Archive, dir: &str, stat: S, read: F) -> (r: Decision) where
    S: Fn(String) -> Probe,
    F: Fn(String) -> Option<Vec<u8>>,

    requires
        forall|p: String| within(dir@, p@) ==> #[trigger] stat.requires((p,)),
        forall|p: String| within(dir@, p@) ==> #[trigger] read.requires((p,)),
    ensures
        entries_of(*final(archive)) == entries_of(*old(archive)),
        entries_of(*old(archive)).len() == 0 ==> r is Delete,
        r matches Decision::Keep(o) ==> !(o is Verified),
        forall|disk: Disk|
            #[trigger] probes_match(stat, read, disk) ==> {
                &&& (r is Delete <==> verdict_of(entries_of(*old(archive)), dir@, disk) is Verified)
                &&& (r matches Decision::Keep(o) ==> o@ == verdict_of(
                    entries_of(*old(archive)),
                    dir@,
                    disk,
                ))
            },
{
    let outcome = verify_archive(archive, dir, stat, read);
    match outcome {
        Outcome::Verified => Decision::Delete,
        _ => Decision::Keep(outcome),
    }
}

} // verus!
