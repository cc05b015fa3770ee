//! Size accounting: what an archive holds once extracted, against what it
//! takes on disk, per archive and over a batch.

use vstd::prelude::*;
use crate::archive::{entries_of, entry_count, entry_header, Archive};
use crate::archive::EntryModel;

verus! {

/// The sum of the declared sizes of the first `n` entries.
pub open spec fn declared_prefix(entries: Seq<EntryModel>, n: int) -> int
    decreases n,
{
    if n <= 0 || n > entries.len() {
        0
    } else {
        declared_prefix(entries, n - 1) + entries[n - 1].2
    }
}

/// The sum of the declared sizes of all entries, directories included.
pub open spec fn declared_total(entries: Seq<EntryModel>) -> int {
    declared_prefix(entries, entries.len() as int)
}

/// The sizes of one archive.
#[derive(Debug, Clone, Copy, PartialEq, Eq)]
pub struct InspectReport {
    /// The sum of the declared uncompressed sizes of the entries.
    pub extracted_size: u64,
    /// The size of the archive file itself.
    pub compressed_size: u64,
}

/// Why an archive could not be inspected.
#[derive(Debug, Clone, Copy, PartialEq, Eq)]
pub enum InspectError {
    /// The archive could not produce the entry at `index`.
    ArchiveFault { index: usize },
    /// The declared sizes add up to more than a `u64` holds.
    SizeOverflow,
}

impl InspectReport {
    /// The space reclaimed by keeping only the archive: extracted minus compressed size.
    pub fn savings(&self) -> (r: i128)
        ensures
            r == self.extracted_size - self.compressed_size,
    {
        self.extracted_size as i128 - self.compressed_size as i128
    }

    /// The compressed size as a share of the extracted size, in hundredths of a
    /// percent, rounded down; none when the extracted size is zero.
    pub fn ratio_basis_points(&self) -> (r: Option<u128>)
        ensures
            self.extracted_size == 0 <==> r is None,
            r matches Some(v) ==> v == (self.compressed_size * 10000) / (self.extracted_size as int),
    {
        if self.extracted_size == 0 {
            None
        } else {
            let num = self.compressed_size as u128 * 10000;
            Some(num / self.extracted_size as u128)
        }
    }
}

/// Sums the declared uncompressed size of every entry of `archive`, and pairs
/// it with `compressed_size`, the size of the archive file.
pub fn inspect(archive: &mut Archive, compressed_size: u64) -> (r: Result<InspectReport, InspectError>)
    ensures
        entries_of(*final(archive)) == entries_of(*old(archive)),
        r is Ok <==> (forall|j: int|
            0 <= j < entries_of(*old(archive)).len() ==> (#[trigger] entries_of(*old(archive))[j]).0)
            && declared_total(entries_of(*old(archive))) <= u64::MAX,
        r matches Ok(rep) ==> rep.extracted_size == declared_total(entries_of(*old(archive)))
            && rep.compressed_size == compressed_size,
        r == Err::<InspectReport, InspectError>(InspectError::SizeOverflow) ==> declared_total(
            entries_of(*old(archive)),
        ) > u64::MAX,
        r matches Err(InspectError::ArchiveFault { index }) ==> index < entries_of(
            *old(archive),
        ).len() && !entries_of(*old(archive))[index as int].0,
{
    let ghost e0 = entries_of(*archive);
    let n = entry_count(archive);
    let mut total: u64 = 0;
    let mut i: usize = 0;
    while i < n
        invariant
            entries_of(*archive) == e0,
            e0 == entries_of(*old(archive)),
            n == e0.len(),
            0 <= i <= n,
            total == declared_prefix(e0, i as int),
            forall|j: int| 0 <= j < i ==> (#[trigger] e0[j]).0,
        decreases n - i,
    {
        let header = match entry_header(archive, i) {
            Ok(h) => h,
            Err(_) => {
                return Err(InspectError::ArchiveFault { index: i });
            },
        };
        if total > u64::MAX - header.size {
            proof {
                lemma_prefix_monotone(e0, i + 1, n as int);
            }
            return Err(InspectError::SizeOverflow);
        }
        total = total + header.size;
        i = i + 1;
    }
    Ok(InspectReport { extracted_size: total, compressed_size })
}

/// Declared sizes are never negative, so a longer prefix sums to at least as much.
proof fn lemma_prefix_monotone(entries: Seq<EntryModel>, m: int, n: int)
    requires
        0 <= m <= n <= entries.len(),
    ensures
        declared_prefix(entries, m) <= declared_prefix(entries, n),
    decreases n - m,
{
    if m < n {
        lemma_prefix_monotone(entries, m, n - 1);
    }
}

/// The largest value a batch total may reach: far beyond any real tree, and
/// small enough that a total times 10000 fits in a `u128`.
pub const TOTAL_LIMIT: u128 = 0xFFFF_FFFF_FFFF_FFFF_FFFF_FFFF_FFFF;

/// Size totals over a batch of archives. Each total stays within
/// `TOTAL_LIMIT`, so their difference and their ratio are exact.
#[derive(Debug, Clone, Copy, PartialEq, Eq)]
pub struct SizeTotals {
    pub extracted: u128,
    pub compressed: u128,
}

impl SizeTotals {
    pub open spec fn wf(&self) -> bool {
        self.extracted <= TOTAL_LIMIT && self.compressed <= TOTAL_LIMIT
    }

    /// Totals of an empty batch.
    pub fn new() -> (r: SizeTotals)
        ensures
            r.wf(),
            r.extracted == 0,
            r.compressed == 0,
    {
        SizeTotals { extracted: 0, compressed: 0 }
    }

    /// Adds one archive's sizes. Returns false, leaving the totals unchanged,
    /// when a total would pass `TOTAL_LIMIT`.
    pub fn add(&mut self, rep: &InspectReport) -> (r: bool)
        requires
            old(self).wf(),
        ensures
            final(self).wf(),
            r == (old(self).extracted + rep.extracted_size <= TOTAL_LIMIT && old(self).compressed
                + rep.compressed_size <= TOTAL_LIMIT),
            r ==> final(self).extracted == old(self).extracted + rep.extracted_size
                && final(self).compressed == old(self).compressed + rep.compressed_size,
            !r ==> *final(self) == *old(self),
    {
        let limit: u128 = TOTAL_LIMIT;
        if self.extracted > limit - rep.extracted_size as u128 || self.compressed > limit
            - rep.compressed_size as u128 {
            return false;
        }
        self.extracted = self.extracted + rep.extracted_size as u128;
        self.compressed = self.compressed + rep.compressed_size as u128;
        true
    }

    /// Total savings: total extracted minus total compressed size.
    pub fn savings(&self) -> (r: i128)
        requires
            self.wf(),
        ensures
            r == self.extracted - self.compressed,
    {
        self.extracted as i128 - self.compressed as i128
    }

    /// The total compressed size as a share of the total extracted size, in
    /// hundredths of a percent, rounded down; none when nothing was extracted.
    pub fn ratio_basis_points(&self) -> (r: Option<u128>)
        requires
            self.wf(),
        ensures
            self.extracted == 0 <==> r is None,
            r matches Some(v) ==> v == (self.compressed * 10000) / (self.extracted as int),
    {
        if self.extracted == 0 {
            None
        } else {
            let num = self.compressed * 10000;
            Some(num / self.extracted)
        }
    }
}

/// Counts of archives that succeeded and failed in one batch run.
#[derive(Debug, Clone, Copy, PartialEq, Eq)]
pub struct RunCounters {
    pub ok: u64,
    pub err: u64,
}

impl RunCounters {
    /// Counters at the start of a batch run: both zero.
    pub fn new() -> (r: RunCounters)
        ensures
            r.ok == 0,
            r.err == 0,
    {
        RunCounters { ok: 0, err: 0 }
    }

    /// Records one processed archive: its success raises `ok`, its failure
    /// raises `err`, each held at `u64::MAX`. Neither count ever falls.
    pub fn record(&mut self, success: bool)
        ensures
            success ==> final(self).ok == (if old(self).ok < u64::MAX { old(self).ok + 1 } else { old(self).ok as int })
                && final(self).err == old(self).err,
            !success ==> final(self).err == (if old(self).err < u64::MAX { old(self).err + 1 } else { old(self).err as int })
                && final(self).ok == old(self).ok,
    {
        if success {
            self.ok = self.ok.saturating_add(1);
        } else {
            self.err = self.err.saturating_add(1);
        }
    }

    /// Whether any archive of the run failed; a run with a failure ends
    /// with a non-zero exit status.
    pub fn any_failed(&self) -> (r: bool)
        ensures
            r == (self.err > 0),
    {
        self.err > 0
    }
}

} // verus!
