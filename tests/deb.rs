use std::io::Read;
use tugger::control::{ControlFile, ControlParagraph};
use tugger::deb::{build_data_tar, build_deb, make_md5sums, serialize_control_file, FileData};
use tugger::manifest::FileManifest;

fn manifest() -> FileManifest {
    let mut m = FileManifest::new();
    m.insert("usr/bin/tool".to_string(), "/src/tool".to_string());
    m.insert("etc/conf".to_string(), "/src/conf".to_string());
    m
}

// Content in manifest key order: "etc/conf", then "usr/bin/tool".
fn data() -> Vec<FileData> {
    vec![
        FileData { content: b"".to_vec(), executable: false },
        FileData { content: b"hello".to_vec(), executable: true },
    ]
}

fn control() -> ControlFile {
    let mut p = ControlParagraph::new();
    p.add_entry("Package", "tool".to_string());
    p.add_entry("Version", "1.0".to_string());
    let mut c = ControlFile::new();
    c.add_paragraph(p);
    c
}

#[test]
fn md5sums_one_line_per_entry_in_key_order() {
    let text = make_md5sums(&manifest(), &data());
    assert_eq!(
        text,
        "d41d8cd98f00b204e9800998ecf8427e  etc/conf\n5d41402abc4b2a76b9719d911017c592  usr/bin/tool\n"
    );
}

#[test]
fn md5sums_of_empty_manifest_is_empty() {
    assert_eq!(make_md5sums(&FileManifest::new(), &vec![]), "");
}

#[test]
fn control_file_bytes() {
    assert_eq!(serialize_control_file(&control()), b"Package: tool\nVersion: 1.0\n".to_vec());
}

#[test]
fn deb_is_reproducible() {
    let a = build_deb(&control(), &manifest(), &data(), 1_500_000_000).unwrap();
    let b = build_deb(&control(), &manifest(), &data(), 1_500_000_000).unwrap();
    assert_eq!(a, b);
    let c = build_deb(&control(), &manifest(), &data(), 1_500_000_001).unwrap();
    assert_ne!(a, c);
}

fn ar_members(bytes: &[u8]) -> Vec<(String, u64, u32, Vec<u8>)> {
    let mut archive = ar::Archive::new(bytes);
    let mut out = Vec::new();
    while let Some(entry) = archive.next_entry() {
        let mut entry = entry.unwrap();
        let name = String::from_utf8(entry.header().identifier().to_vec()).unwrap();
        let mtime = entry.header().mtime();
        let mode = entry.header().mode();
        let mut content = Vec::new();
        entry.read_to_end(&mut content).unwrap();
        out.push((name, mtime, mode, content));
    }
    out
}

fn tar_members(bytes: &[u8]) -> Vec<(String, u32, u64, Vec<u8>)> {
    let mut archive = tar::Archive::new(bytes);
    let mut out = Vec::new();
    for entry in archive.entries().unwrap() {
        let mut entry = entry.unwrap();
        let path = entry.path().unwrap().display().to_string();
        let mode = entry.header().mode().unwrap();
        let mtime = entry.header().mtime().unwrap();
        let mut content = Vec::new();
        entry.read_to_end(&mut content).unwrap();
        out.push((path, mode, mtime, content));
    }
    out
}

#[test]
fn deb_has_three_members_in_order() {
    let bytes = build_deb(&control(), &manifest(), &data(), 1234).unwrap();
    assert!(bytes.starts_with(b"!<arch>\n"));
    let members = ar_members(&bytes);
    let names: Vec<&str> = members.iter().map(|m| m.0.as_str()).collect();
    assert_eq!(names, vec!["debian-binary", "control.tar", "data.tar"]);
    assert_eq!(members[0].3, b"2.0\n".to_vec());
    for m in &members {
        assert_eq!(m.1, 1234);
        assert_eq!(m.2, 0o644);
    }
    let control_members = tar_members(&members[1].3);
    assert_eq!(control_members.len(), 2);
    assert_eq!(control_members[0].0, "control");
    assert_eq!(control_members[0].3, b"Package: tool\nVersion: 1.0\n".to_vec());
    assert_eq!(control_members[1].0, "md5sums");
    assert_eq!(control_members[1].2, 1234);
    let data_members = tar_members(&members[2].3);
    let paths: Vec<&str> = data_members.iter().map(|m| m.0.as_str()).collect();
    assert_eq!(paths, vec!["etc/conf", "usr/bin/tool"]);
    assert_eq!(data_members[0].1, 0o644);
    assert_eq!(data_members[1].1, 0o755);
    assert_eq!(data_members[1].3, b"hello".to_vec());
    assert_eq!(data_members[1].2, 1234);
}

#[test]
fn data_tar_of_empty_manifest_is_end_blocks_only() {
    let bytes = build_data_tar(&FileManifest::new(), &vec![], 0).unwrap();
    assert_eq!(bytes, vec![0u8; 1024]);
}

#[test]
fn data_tar_refuses_parent_segments() {
    let mut m = FileManifest::new();
    m.insert("../x".to_string(), "/src/x".to_string());
    let data = vec![FileData { content: b"x".to_vec(), executable: false }];
    assert!(build_data_tar(&m, &data, 0).is_err());
    assert!(build_deb(&control(), &m, &data, 0).is_err());
}
