//! The zip archive as the library sees it: an in-memory archive read through
//! the `zip` crate, and what each of its entries holds.

use vstd::prelude::*;
use std::io::Cursor;
use std::io::Read;
use zip::result::ZipError;
use zip::ZipArchive;

verus! {

#[verifier::external_type_specification]
#[verifier::external_body]
#[verifier::reject_recursive_types(T)]
pub struct ExCursor<T>(Cursor<T>);

#[verifier::external_type_specification]
#[verifier::external_body]
#[verifier::reject_recursive_types(R)]
pub struct ExZipArchive<R>(ZipArchive<R>);

#[verifier::external_type_specification]
#[verifier::external_body]
pub struct ExZipError(ZipError);

/// An archive read from bytes held in memory.
pub type Archive = ZipArchive<Cursor<Vec<u8>>>;

/// One entry of an archive: (its header can be read, is a directory,
/// declared uncompressed size, the relative path `enclosed_name` gives if
/// any, its decompressed content if it can be read).
pub type EntryModel = (bool, bool, u64, Option<Seq<char>>, Option<Seq<u8>>);

/// The entries of an archive, in the order the archive stores them.
pub uninterp spec fn entries_of(a: ZipArchive<Cursor<Vec<u8>>>) -> Seq<(bool, bool, u64, Option<Seq<char>>, Option<Seq<u8>>)>;

/// What parsing `b` as a zip archive gives: its entries, or none when `b`
/// is no readable archive.
pub uninterp spec fn zip_parse(b: Seq<u8>) -> Option<Seq<(bool, bool, u64, Option<Seq<char>>, Option<Seq<u8>>)>>;

/// An entry's metadata as read from the archive's central directory.
pub struct EntryHeader {
    pub is_dir: bool,
    pub size: u64,
    pub enclosed: Option<String>,
}

/// The header matches the archive's record of an entry.
pub open spec fn header_matches(h: EntryHeader, e: EntryModel) -> bool {
    &&& h.is_dir == e.1
    &&& h.size == e.2
    &&& h.enclosed is None <==> e.3 is None
    &&& h.enclosed is Some ==> h.enclosed->0@ == e.3->0
}

/// Relies on `zip::ZipArchive::new`: reads the central directory of the
/// archive held in `bytes`; the result depends on the bytes alone.
#[verifier::external_body]
pub(crate) fn parse_archive(bytes: Vec<u8>) -> (r: Result<Archive, ZipError>)
    ensures
        r is Ok <==> zip_parse(bytes@) is Some,
        r matches Ok(a) ==> entries_of(a) == zip_parse(bytes@)->0,
{
    ZipArchive::new(Cursor::new(bytes))
}

/// Relies on `zip::ZipArchive::len`: the number of entries of the archive.
#[verifier::external_body]
pub(crate) fn entry_count(a: &Archive) -> (r: usize)
    ensures
        r == entries_of(*a).len(),
{
    a.len()
}

/// Relies on `zip::ZipArchive::by_index` and the entry's `is_dir`, `size` and
/// `enclosed_name`, converted to a `String`.
#[verifier::external_body]
pub(crate) fn entry_header(a: &mut Archive, i: usize) -> (r: Result<EntryHeader, ZipError>)
    requires
        i < entries_of(*old(a)).len(),
    ensures
        entries_of(*final(a)) == entries_of(*old(a)),
        r is Ok <==> entries_of(*old(a))[i as int].0,
        r matches Ok(h) ==> header_matches(h, entries_of(*old(a))[i as int]),
{
    let f = a.by_index(i)?;
    let enclosed = match f.enclosed_name() {
        Some(p) => p.into_os_string().into_string().ok(),
        None => None,
    };
    Ok(EntryHeader { is_dir: f.is_dir(), size: f.size(), enclosed })
}

/// Relies on `zip::ZipArchive::by_index` and `Read::read_to_end` on the
/// entry: the decompressed content of entry `i`.
#[verifier::external_body]
pub(crate) fn entry_data(a: &mut Archive, i: usize) -> (r: Result<Vec<u8>, ZipError>)
    requires
        i < entries_of(*old(a)).len(),
    ensures
        entries_of(*final(a)) == entries_of(*old(a)),
        r is Ok <==> entries_of(*old(a))[i as int].4 is Some,
        r is Ok ==> entries_of(*old(a))[i as int].0,
        r matches Ok(v) ==> v@ == entries_of(*old(a))[i as int].4->0,
{
    let mut f = a.by_index(i)?;
    let mut buf = Vec::new();
    f.read_to_end(&mut buf)?;
    Ok(buf)
}

/// Why an archive could not be opened.
#[derive(Debug, Clone, Copy, PartialEq, Eq)]
pub enum OpenError {
    /// The bytes are not a readable zip archive.
    NotAnArchive,
}

/// Opens the archive whose bytes are `bytes`.
pub fn open_archive(bytes: Vec<u8>) -> (r: Result<Archive, OpenError>)
    ensures
        r is Ok <==> zip_parse(bytes@) is Some,
        r matches Ok(a) ==> entries_of(a) == zip_parse(bytes@)->0,
        r is Err ==> r == Err::<Archive, OpenError>(OpenError::NotAnArchive),
{
    match parse_archive(bytes) {
        Ok(a) => Ok(a),
        Err(_) => Err(OpenError::NotAnArchive),
    }
}

} // verus!
