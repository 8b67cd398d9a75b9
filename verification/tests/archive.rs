use std::collections::{BTreeMap, BTreeSet};
use std::io::{Cursor, Write};

use spinexus::archive::{plan_entries, plan_extraction, read_zip_entries, FsOp, ZipEntry};
use spinexus::errors::Error;
use zip::write::SimpleFileOptions;
use zip::ZipWriter;

fn small_archive() -> Vec<u8> {
    let mut w = ZipWriter::new(Cursor::new(Vec::new()));
    let opts = SimpleFileOptions::default();
    w.start_file("a.txt", opts).unwrap();
    w.write_all(b"hello").unwrap();
    w.start_file("dir/b.txt", opts).unwrap();
    w.write_all(b"world").unwrap();
    w.add_directory("dir", opts).unwrap();
    w.finish().unwrap().into_inner()
}

/// Replays a plan against an in-memory tree, as the application replays it
/// against the destination directory.
fn replay(ops: Vec<FsOp>) -> (BTreeMap<String, Vec<u8>>, BTreeSet<String>) {
    let mut files: BTreeMap<String, Vec<u8>> = BTreeMap::new();
    let mut dirs: BTreeSet<String> = BTreeSet::new();
    for op in ops {
        match op {
            FsOp::MakeDir { path, .. } => {
                for k in 1..=path.len() {
                    dirs.insert(path[..k].join("/"));
                }
            }
            FsOp::WriteFile { path, data, .. } => {
                files.insert(path.join("/"), data);
            }
        }
    }
    (files, dirs)
}

#[test]
fn extraction_fidelity() {
    let bytes = small_archive();
    let ops = plan_extraction(&bytes).unwrap();
    let (files, dirs) = replay(ops);
    assert_eq!(files.get("a.txt").map(Vec::as_slice), Some(&b"hello"[..]));
    assert_eq!(files.get("dir/b.txt").map(Vec::as_slice), Some(&b"world"[..]));
    assert!(dirs.contains("dir"));
    assert_eq!(files.len(), 2);
}

#[test]
fn entries_read_back_exactly_as_written() {
    let bytes = small_archive();
    let es = read_zip_entries(&bytes).unwrap();
    assert_eq!(es.len(), 3);
    assert_eq!(es[0].name, "a.txt");
    assert_eq!(es[0].data, b"hello".to_vec());
    assert_eq!(es[1].name, "dir/b.txt");
    assert_eq!(es[1].data, b"world".to_vec());
    assert!(es[2].name.ends_with('/'));
    assert!(es[2].name.starts_with("dir"));
    assert_eq!(es[2].data, Vec::<u8>::new());
}

#[test]
fn plan_preserves_container_order() {
    let bytes = small_archive();
    let ops = plan_extraction(&bytes).unwrap();
    // a.txt is flat: one write; dir/b.txt is nested: ancestor creation, then
    // the write; the trailing directory marker: one directory creation.
    assert_eq!(ops.len(), 4);
    assert!(matches!(&ops[0], FsOp::WriteFile { path, .. } if path == &["a.txt"]));
    assert!(matches!(&ops[1], FsOp::MakeDir { path, mode: None } if path == &["dir"]));
    assert!(matches!(&ops[2], FsOp::WriteFile { path, .. } if path == &["dir", "b.txt"]));
    assert!(matches!(&ops[3], FsOp::MakeDir { path, .. } if path == &["dir"]));
}

#[test]
fn traversal_entries_are_skipped_and_rest_succeed() {
    let entries = vec![
        ZipEntry { name: "../../evil.txt".to_string(), mode: None, data: b"evil".to_vec() },
        ZipEntry { name: "/abs/evil.txt".to_string(), mode: None, data: b"evil".to_vec() },
        ZipEntry { name: "ok.txt".to_string(), mode: None, data: b"fine".to_vec() },
    ];
    let ops = plan_entries(entries);
    assert_eq!(
        ops,
        vec![FsOp::WriteFile {
            path: vec!["ok.txt".to_string()],
            data: b"fine".to_vec(),
            mode: None,
        }]
    );
}

#[test]
fn no_planned_path_escapes() {
    let entries = vec![
        ZipEntry { name: "a/../../../evil".to_string(), mode: None, data: vec![] },
        ZipEntry { name: "deep/../x/./y".to_string(), mode: None, data: vec![1] },
        ZipEntry { name: "dir//sub/".to_string(), mode: None, data: vec![] },
    ];
    for op in plan_entries(entries) {
        let path = match &op {
            FsOp::MakeDir { path, .. } => path,
            FsOp::WriteFile { path, .. } => path,
        };
        for c in path {
            assert!(!c.is_empty());
            assert_ne!(c, ".");
            assert_ne!(c, "..");
            assert!(!c.contains('/'));
            assert!(!c.contains('\0'));
        }
    }
}

#[test]
fn declared_mode_is_carried_exactly() {
    let mut w = ZipWriter::new(Cursor::new(Vec::new()));
    let opts = SimpleFileOptions::default().unix_permissions(0o755);
    w.start_file("tool.sh", opts).unwrap();
    w.write_all(b"#!/bin/sh\n").unwrap();
    let bytes = w.finish().unwrap().into_inner();
    let ops = plan_extraction(&bytes).unwrap();
    assert_eq!(ops.len(), 1);
    // The container stores the whole Unix mode word, file-type bits included;
    // the permission bits of the declared mode come through exactly.
    assert!(matches!(
        &ops[0],
        FsOp::WriteFile { path, data, mode: Some(m) }
            if path == &["tool.sh"] && data == &b"#!/bin/sh\n".to_vec() && m & 0o777 == 0o755
    ));
}

#[test]
fn missing_mode_is_kept_missing() {
    let entries = vec![ZipEntry { name: "plain.txt".to_string(), mode: None, data: vec![7] }];
    let ops = plan_entries(entries);
    assert!(matches!(&ops[0], FsOp::WriteFile { mode: None, .. }));
}

#[test]
fn directory_entry_keeps_its_mode() {
    let entries = vec![ZipEntry { name: "d/".to_string(), mode: Some(0o700), data: vec![] }];
    let ops = plan_entries(entries);
    assert_eq!(
        ops,
        vec![FsOp::MakeDir { path: vec!["d".to_string()], mode: Some(0o700) }]
    );
}

#[test]
fn corrupt_container_is_an_open_error() {
    let bytes = b"this is no zip container at all".to_vec();
    assert_eq!(plan_extraction(&bytes).unwrap_err(), Error::ArchiveOpen);
    assert_eq!(read_zip_entries(&bytes).unwrap_err(), Error::ArchiveOpen);
}

#[test]
fn empty_container_plans_nothing() {
    let w = ZipWriter::new(Cursor::new(Vec::new()));
    let bytes = w.finish().unwrap().into_inner();
    assert_eq!(plan_extraction(&bytes).unwrap(), Vec::<FsOp>::new());
}
