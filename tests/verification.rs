use std::cell::RefCell;
use std::collections::HashMap;
use std::io::{Cursor, Write};

use zip::write::SimpleFileOptions;
use zip::{CompressionMethod, ZipWriter};

use zip_audit::archive::{open_archive, Archive, OpenError};
use zip_audit::engine::{reclaim, verify_archive, Decision, Outcome, Probe};
use zip_audit::naming::is_confined;

/// Builds an archive in memory: a name with content is a file, one without is a directory.
fn build_zip(entries: &[(&str, Option<&[u8]>)]) -> Vec<u8> {
    let mut w = ZipWriter::new(Cursor::new(Vec::new()));
    let opts = SimpleFileOptions::default().compression_method(CompressionMethod::Deflated);
    for (name, content) in entries {
        match content {
            Some(bytes) => {
                w.start_file(*name, opts).unwrap();
                w.write_all(bytes).unwrap();
            }
            None => {
                w.add_directory(*name, opts).unwrap();
            }
        }
    }
    w.finish().unwrap().into_inner()
}

fn open(entries: &[(&str, Option<&[u8]>)]) -> Archive {
    open_archive(build_zip(entries)).unwrap()
}

fn disk_of(files: &[(&str, &[u8])]) -> HashMap<String, Vec<u8>> {
    files
        .iter()
        .map(|(p, c)| (p.to_string(), c.to_vec()))
        .collect()
}

fn run(archive: &mut Archive, dir: &str, disk: &HashMap<String, Vec<u8>>) -> Outcome {
    verify_archive(
        archive,
        dir,
        |p: String| match disk.get(&p) {
            Some(v) => Probe::Present(v.len() as u64),
            None => Probe::Missing,
        },
        |p: String| disk.get(&p).cloned(),
    )
}

#[test]
fn exact_copy_verifies() {
    let mut a = open(&[
        ("sub/", None),
        ("sub/a.txt", Some(b"hello")),
        ("b.bin", Some(&[0u8, 1, 2, 255])),
    ]);
    let disk = disk_of(&[("data/set/sub/a.txt", b"hello"), ("data/set/b.bin", &[0, 1, 2, 255])]);
    assert_eq!(run(&mut a, "data/set", &disk), Outcome::Verified);
}

#[test]
fn verification_twice_gives_same_outcome() {
    let mut a = open(&[("a.txt", Some(b"abc")), ("b.txt", Some(b"def"))]);
    let disk = disk_of(&[("d/a.txt", b"abc"), ("d/b.txt", b"xyz")]);
    let first = run(&mut a, "d", &disk);
    let second = run(&mut a, "d", &disk);
    assert_eq!(first, Outcome::ContentMismatch { path: "d/b.txt".to_string() });
    assert_eq!(first, second);

    let good = disk_of(&[("d/a.txt", b"abc"), ("d/b.txt", b"def")]);
    assert_eq!(run(&mut a, "d", &good), Outcome::Verified);
    assert_eq!(run(&mut a, "d", &good), Outcome::Verified);
}

fn reclaim_with(archive: &mut Archive, disk: &HashMap<String, Vec<u8>>) -> Decision {
    reclaim(
        archive,
        "d",
        |p: String| match disk.get(&p) {
            Some(v) => Probe::Present(v.len() as u64),
            None => Probe::Missing,
        },
        |p: String| disk.get(&p).cloned(),
    )
}

#[test]
fn reclaim_deletes_only_after_verification() {
    let mut a = open(&[("a.txt", Some(b"abc"))]);

    let bad = disk_of(&[("d/a.txt", b"abd")]);
    assert_eq!(
        reclaim_with(&mut a, &bad),
        Decision::Keep(Outcome::ContentMismatch { path: "d/a.txt".to_string() })
    );

    let empty = disk_of(&[]);
    assert_eq!(
        reclaim_with(&mut a, &empty),
        Decision::Keep(Outcome::MissingFile { path: "d/a.txt".to_string() })
    );

    let good = disk_of(&[("d/a.txt", b"abc")]);
    assert_eq!(reclaim_with(&mut a, &good), Decision::Delete);

    let mut escaping = open(&[("../a.txt", Some(b"abc"))]);
    let outside = disk_of(&[("a.txt", b"abc"), ("d/a.txt", b"abc")]);
    assert_eq!(reclaim_with(&mut escaping, &outside), Decision::Keep(Outcome::UnsafePath { index: 0 }));
}

#[test]
fn parent_directory_entry_is_blocked() {
    let mut a = open(&[("../outside.txt", Some(b"secret"))]);
    let disk = disk_of(&[("data/outside.txt", b"secret"), ("data/set/outside.txt", b"secret")]);
    let asked = RefCell::new(Vec::new());
    let outcome = verify_archive(
        &mut a,
        "data/set",
        |p: String| {
            asked.borrow_mut().push(p.clone());
            match disk.get(&p) {
                Some(v) => Probe::Present(v.len() as u64),
                None => Probe::Missing,
            }
        },
        |p: String| {
            asked.borrow_mut().push(p.clone());
            disk.get(&p).cloned()
        },
    );
    assert_eq!(outcome, Outcome::UnsafePath { index: 0 });
    assert!(asked.borrow().iter().all(|p| p.starts_with("data/set/")));
}

#[test]
fn probes_stay_inside_directory() {
    let mut a = open(&[("x/../y.txt", Some(b"1")), ("z.txt", Some(b"2"))]);
    let disk = disk_of(&[("root/y.txt", b"1"), ("root/z.txt", b"2")]);
    let asked = RefCell::new(Vec::new());
    let outcome = verify_archive(
        &mut a,
        "root",
        |p: String| {
            asked.borrow_mut().push(p.clone());
            match disk.get(&p) {
                Some(v) => Probe::Present(v.len() as u64),
                None => Probe::Missing,
            }
        },
        |p: String| disk.get(&p).cloned(),
    );
    assert_eq!(outcome, Outcome::Verified);
    assert_eq!(*asked.borrow(), vec!["root/y.txt".to_string(), "root/z.txt".to_string()]);
}

#[test]
fn missing_directory_reports_first_file() {
    let mut a = open(&[("docs/", None), ("docs/a.txt", Some(b"a")), ("b.txt", Some(b"b"))]);
    let disk = disk_of(&[]);
    assert_eq!(
        run(&mut a, "archive", &disk),
        Outcome::MissingFile { path: "archive/docs/a.txt".to_string() }
    );
}

#[test]
fn one_byte_difference_is_content_mismatch() {
    let mut a = open(&[("f.bin", Some(&[1u8, 2, 3, 4]))]);
    let disk = disk_of(&[("out/f.bin", &[1, 2, 9, 4])]);
    assert_eq!(run(&mut a, "out", &disk), Outcome::ContentMismatch { path: "out/f.bin".to_string() });
}

#[test]
fn different_length_is_size_mismatch() {
    let mut a = open(&[("f.txt", Some(b"abcdef"))]);
    let disk = disk_of(&[("out/f.txt", b"abc")]);
    assert_eq!(
        run(&mut a, "out", &disk),
        Outcome::SizeMismatch { path: "out/f.txt".to_string(), expected: 6, actual: 3 }
    );
}

#[test]
fn first_failure_decides() {
    let mut a = open(&[("a.txt", Some(b"aa")), ("b.txt", Some(b"bb"))]);
    let disk = disk_of(&[("o/a.txt", b"a")]);
    assert_eq!(
        run(&mut a, "o", &disk),
        Outcome::SizeMismatch { path: "o/a.txt".to_string(), expected: 2, actual: 1 }
    );
}

#[test]
fn failed_probe_is_unreadable() {
    let mut a = open(&[("a.txt", Some(b"aa"))]);
    let outcome = verify_archive(&mut a, "o", |_p: String| Probe::Failed, |_p: String| None);
    assert_eq!(outcome, Outcome::Unreadable { path: "o/a.txt".to_string() });

    let outcome = verify_archive(&mut a, "o", |_p: String| Probe::Present(2), |_p: String| None);
    assert_eq!(outcome, Outcome::Unreadable { path: "o/a.txt".to_string() });
}

#[test]
fn empty_archive_verifies() {
    let mut a = open(&[]);
    assert_eq!(run(&mut a, "nothing", &disk_of(&[])), Outcome::Verified);
}

#[test]
fn directories_only_verify_without_disk() {
    let mut a = open(&[("a/", None), ("a/b/", None)]);
    assert_eq!(run(&mut a, "d", &disk_of(&[])), Outcome::Verified);
}

#[test]
fn garbage_is_not_an_archive() {
    assert_eq!(open_archive(b"not a zip at all".to_vec()).err(), Some(OpenError::NotAnArchive));
    assert_eq!(open_archive(Vec::new()).err(), Some(OpenError::NotAnArchive));
}

#[test]
fn verbatim_prefix_entry_is_blocked() {
    let mut a = open(&[("\\\\?\\C:\\../outside.txt", Some(b"secret"))]);
    let disk = disk_of(&[("data/outside.txt", b"secret"), ("data/set/../outside.txt", b"secret")]);
    let asked = RefCell::new(Vec::new());
    let outcome = verify_archive(
        &mut a,
        "data/set",
        |p: String| {
            asked.borrow_mut().push(p.clone());
            match disk.get(&p) {
                Some(v) => Probe::Present(v.len() as u64),
                None => Probe::Missing,
            }
        },
        |p: String| {
            asked.borrow_mut().push(p.clone());
            disk.get(&p).cloned()
        },
    );
    assert_eq!(outcome, Outcome::UnsafePath { index: 0 });
    assert!(asked.borrow().is_empty());
}

#[test]
fn confined_paths() {
    assert!(is_confined("a/b.txt"));
    assert!(is_confined("a/..b/c"));
    assert!(is_confined("..."));
    assert!(is_confined(""));
    assert!(!is_confined("../x"));
    assert!(!is_confined("a/../x"));
    assert!(!is_confined("a/.."));
    assert!(!is_confined(".."));
    assert!(!is_confined("/etc/passwd"));
}

#[test]
fn unreadable_file_after_size_match() {
    let mut a = open(&[("a.txt", Some(b"aa")), ("b.txt", Some(b"bb"))]);
    let outcome = verify_archive(
        &mut a,
        "o",
        |_p: String| Probe::Present(2),
        |p: String| if p == "o/a.txt" { Some(b"aa".to_vec()) } else { None },
    );
    assert_eq!(outcome, Outcome::Unreadable { path: "o/b.txt".to_string() });
}
