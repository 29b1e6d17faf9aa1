use std::io::Read;

use paastel::archive::{build_tar_gz, is_below_root, normalize_separators, select_entries, ArchiveError, ArchiveFile, WalkEntry};
use paastel::ignore::Dockerignore;

fn entry(path: &str, is_file: bool) -> WalkEntry {
    WalkEntry { rel_path: path.to_string(), is_file }
}

fn unpack(bytes: &[u8]) -> Vec<(String, u32, Vec<u8>)> {
    let mut tar_bytes = Vec::new();
    flate2::read::GzDecoder::new(bytes).read_to_end(&mut tar_bytes).unwrap();
    let mut archive = tar::Archive::new(tar_bytes.as_slice());
    let mut out = Vec::new();
    for e in archive.entries().unwrap() {
        let mut e = e.unwrap();
        let name = e.path().unwrap().to_string_lossy().into_owned();
        let mode = e.header().mode().unwrap();
        let mut data = Vec::new();
        e.read_to_end(&mut data).unwrap();
        out.push((name, mode, data));
    }
    out
}

#[test]
fn separators_are_normalized() {
    assert_eq!(normalize_separators("a\\b\\c.txt"), "a/b/c.txt");
    assert_eq!(normalize_separators("plain/path"), "plain/path");
}

#[test]
fn selection_drops_root_directories_and_ignored_entries() {
    let d = Dockerignore::parse("build/\nnode_modules\n").unwrap();
    let walked = vec![
        entry("", false),
        entry("Dockerfile", true),
        entry("build", false),
        entry("build/app.bin", true),
        entry("build/sub/deep.o", true),
        entry("node_modules", false),
        entry("node_modules/pkg/index.js", true),
        entry("node_modules.log", true),
        entry("src", false),
        entry("src\\main.rs", true),
    ];
    let names = select_entries(&walked, &d);
    assert_eq!(names, vec!["Dockerfile", "node_modules.log", "src/main.rs"]);
}

#[test]
fn selection_without_rules_keeps_every_file() {
    let walked = vec![entry("", false), entry("a", true), entry("d", false), entry("d/b", true)];
    assert_eq!(select_entries(&walked, &None), vec!["a", "d/b"]);
}

#[test]
fn archive_round_trip() {
    let files = vec![
        ArchiveFile { name: "Dockerfile".to_string(), mode: 0o644, mtime: 1_700_000_000, data: b"FROM nginx\n".to_vec() },
        ArchiveFile { name: "bin/run.sh".to_string(), mode: 0o755, mtime: 0, data: b"#!/bin/sh\n".to_vec() },
        ArchiveFile { name: "empty".to_string(), mode: 0o600, mtime: 0, data: Vec::new() },
    ];
    let bytes = build_tar_gz(&files).unwrap();
    assert_eq!(&bytes[..2], &[0x1f, 0x8b]);
    let back = unpack(&bytes);
    assert_eq!(
        back,
        vec![
            ("Dockerfile".to_string(), 0o644, b"FROM nginx\n".to_vec()),
            ("bin/run.sh".to_string(), 0o755, b"#!/bin/sh\n".to_vec()),
            ("empty".to_string(), 0o600, Vec::new()),
        ]
    );
}

#[test]
fn archive_of_nothing_is_an_empty_tar() {
    let bytes = build_tar_gz(&Vec::new()).unwrap();
    assert!(unpack(&bytes).is_empty());
}

#[test]
fn filtered_tree_round_trip() {
    let d = Dockerignore::parse("*.log\n!keep.log\nbuild\n").unwrap();
    let walked = vec![
        entry("app.log", true),
        entry("keep.log", true),
        entry("build\\x.o", true),
        entry("docs\\guide.md", true),
    ];
    let names = select_entries(&walked, &d);
    let files: Vec<ArchiveFile> = names
        .iter()
        .map(|n| ArchiveFile { name: n.clone(), mode: 0o644, mtime: 0, data: n.as_bytes().to_vec() })
        .collect();
    let back = unpack(&build_tar_gz(&files).unwrap());
    let back_names: Vec<String> = back.iter().map(|(n, _, _)| n.clone()).collect();
    assert_eq!(back_names, vec!["keep.log", "docs/guide.md"]);
    for (name, _, data) in back {
        assert!(!name.contains('\\'));
        assert_eq!(data, name.as_bytes());
    }
}

#[test]
fn unsafe_name_fails_to_append() {
    let files = vec![ArchiveFile { name: "../escape".to_string(), mode: 0o644, mtime: 0, data: Vec::new() }];
    match build_tar_gz(&files) {
        Err(ArchiveError::Append { name, .. }) => assert_eq!(name, "../escape"),
        other => panic!("unexpected result: {:?}", other.map(|v| v.len())),
    }
}

#[test]
fn root_and_absolute_names_are_not_archived() {
    let walked = vec![entry(".", true), entry("/etc/passwd", true), entry("\\abs", true), entry("./a", true), entry("b", true)];
    assert_eq!(select_entries(&walked, &None), vec!["./a", "b"]);
    assert!(!is_below_root(""));
    assert!(!is_below_root("."));
    assert!(!is_below_root("/x"));
    assert!(is_below_root(".."));
    assert!(is_below_root("x/y"));
}

#[test]
fn first_refused_name_is_reported() {
    let files = vec![
        ArchiveFile { name: "ok.txt".to_string(), mode: 0o644, mtime: 0, data: Vec::new() },
        ArchiveFile { name: "a/../b".to_string(), mode: 0o644, mtime: 0, data: Vec::new() },
        ArchiveFile { name: "/abs".to_string(), mode: 0o644, mtime: 0, data: Vec::new() },
    ];
    match build_tar_gz(&files) {
        Err(ArchiveError::Append { name, .. }) => assert_eq!(name, "a/../b"),
        other => panic!("unexpected result: {:?}", other.map(|v| v.len())),
    }
}

#[test]
fn long_names_are_archived() {
    let name = format!("{}/{}", "d".repeat(200), "f".repeat(150));
    let files = vec![ArchiveFile { name: name.clone(), mode: 0o644, mtime: 0, data: b"x".to_vec() }];
    let back = unpack(&build_tar_gz(&files).unwrap());
    assert_eq!(back, vec![(name, 0o644, b"x".to_vec())]);
}
