use tugger::error::Error;
use tugger::manifest::{
    file_manifest_from_files, manifest_from_sources, manifest_key, relative_path, FileManifest, SourceFile,
};
use tugger::value::{Object, Value, ValueType};

fn make_file(dir: &std::path::Path, name: &str, content: &[u8]) -> tempfile::NamedTempFile {
    let mut f = tempfile::Builder::new().prefix(name).rand_bytes(0).tempfile_in(dir).unwrap();
    std::io::Write::write_all(f.as_file_mut(), content).unwrap();
    f
}

fn make_dir(dir: &std::path::Path, name: &str) -> tempfile::TempDir {
    tempfile::Builder::new().prefix(name).rand_bytes(0).tempdir_in(dir).unwrap()
}

fn source(p: &str) -> SourceFile {
    SourceFile { path: p.to_string() }
}

#[test]
fn manifest_key_with_prefix() {
    let files = vec![source("/root/a/b.txt")];
    let sources = vec!["/real/a/b.txt".to_string()];
    let m = manifest_from_sources(&files, &sources, "/root", Some("pkg")).unwrap();
    assert_eq!(m.files, vec![("pkg/a/b.txt".to_string(), "/real/a/b.txt".to_string())]);
}

#[test]
fn file_outside_root_is_rejected() {
    let files = vec![source("/root/a/b.txt"), source("/other/c.txt")];
    let sources = vec!["/root/a/b.txt".to_string(), "/other/c.txt".to_string()];
    let r = manifest_from_sources(&files, &sources, "/root", Some("pkg"));
    assert_eq!(
        r.unwrap_err(),
        Error::InvalidRelativePath { path: "/other/c.txt".to_string(), root: "/root".to_string() }
    );
}

#[test]
fn relative_paths_follow_components() {
    assert_eq!(relative_path("/root/a/b.txt", "/root"), Some("a/b.txt".to_string()));
    assert_eq!(relative_path("/root/a/b.txt", "/root/"), Some("a/b.txt".to_string()));
    assert_eq!(relative_path("/rootx/a", "/root"), None);
    assert_eq!(relative_path("/root", "/root"), Some("".to_string()));
    assert_eq!(relative_path("/a/b", "/"), Some("a/b".to_string()));
}

#[test]
fn keys_never_start_with_separator() {
    assert_eq!(manifest_key(Some("/opt/pkg/"), "a"), "opt/pkg/a");
    assert_eq!(manifest_key(None, "a/b"), "a/b");
    assert_eq!(manifest_key(Some(""), "a"), "a");
}

#[test]
fn insert_orders_keys_and_replaces() {
    let mut m = FileManifest::new();
    m.insert("b".to_string(), "1".to_string());
    m.insert("a".to_string(), "2".to_string());
    m.insert("c".to_string(), "3".to_string());
    m.insert("b".to_string(), "4".to_string());
    let keys: Vec<(&str, &str)> = m.files.iter().map(|e| (e.0.as_str(), e.1.as_str())).collect();
    assert_eq!(keys, vec![("a", "2"), ("b", "4"), ("c", "3")]);
    assert_eq!(m.len(), 3);
}

#[test]
fn snapshot_is_independent() {
    let mut m = FileManifest::new();
    m.insert("a".to_string(), "1".to_string());
    let copy = m.snapshot();
    m.insert("b".to_string(), "2".to_string());
    assert_eq!(copy.files.len(), 1);
}

#[test]
fn from_files_on_disk() {
    let dir = tempfile::tempdir().unwrap();
    let root = dir.path().canonicalize().unwrap();
    let sub = make_dir(&root, "a");
    let _file = make_file(sub.path(), "b.txt", b"x");
    let path = root.join("a/b.txt").display().to_string();
    let files = Value::List(vec![Value::Object(Object::SourceFile(source(&path)))]);
    let cwd = root.display().to_string();
    let m = file_manifest_from_files("/nowhere", &files, &Value::Str(cwd.clone()), &Value::Str("pkg".to_string()))
        .unwrap();
    assert_eq!(m.files, vec![("pkg/a/b.txt".to_string(), path.clone())]);
    let m = file_manifest_from_files(&cwd, &files, &Value::NoneValue, &Value::NoneValue).unwrap();
    assert_eq!(m.files[0].0, "a/b.txt");
    let r = file_manifest_from_files(&cwd, &files, &Value::Str("/elsewhere".to_string()), &Value::NoneValue);
    assert!(matches!(r, Err(Error::InvalidRelativePath { .. })));
}

#[test]
fn from_files_stores_resolved_paths() {
    let dir = tempfile::tempdir().unwrap();
    let root = dir.path().canonicalize().unwrap();
    let sub = make_dir(&root, "a");
    let _file = make_file(sub.path(), "b.txt", b"x");
    let winding = root.join("a/../a/b.txt").display().to_string();
    let files = Value::List(vec![Value::Object(Object::SourceFile(source(&winding)))]);
    let m = file_manifest_from_files(&root.display().to_string(), &files, &Value::NoneValue, &Value::NoneValue).unwrap();
    assert_eq!(m.files[0].0, "a/../a/b.txt");
    assert_eq!(m.files[0].1, root.join("a/b.txt").display().to_string());
    let missing = Value::List(vec![Value::Object(Object::SourceFile(source(&root.join("nope").display().to_string())))]);
    let r = file_manifest_from_files(&root.display().to_string(), &missing, &Value::NoneValue, &Value::NoneValue);
    assert!(matches!(r, Err(Error::IoFailure { .. })));
}

#[test]
fn from_files_type_errors() {
    let r = file_manifest_from_files("/", &Value::Int(1), &Value::NoneValue, &Value::NoneValue);
    assert_eq!(
        r.unwrap_err(),
        Error::TypeMismatch { argument: "files".to_string(), expected: ValueType::List, got: ValueType::Int }
    );
    let r = file_manifest_from_files("/", &Value::List(vec![Value::Int(1)]), &Value::NoneValue, &Value::NoneValue);
    assert_eq!(
        r.unwrap_err(),
        Error::TypeMismatch { argument: "files".to_string(), expected: ValueType::SourceFile, got: ValueType::Int }
    );
    let r = file_manifest_from_files("/", &Value::List(vec![]), &Value::Int(2), &Value::NoneValue);
    assert_eq!(
        r.unwrap_err(),
        Error::TypeMismatch { argument: "relative_to".to_string(), expected: ValueType::String, got: ValueType::Int }
    );
}

#[test]
fn from_files_of_empty_list_is_empty() {
    let m = file_manifest_from_files("/", &Value::List(vec![]), &Value::NoneValue, &Value::NoneValue).unwrap();
    assert_eq!(m.len(), 0);
}
