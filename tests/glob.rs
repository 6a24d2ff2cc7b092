use tugger::fileset::{evaluate_glob, glob_search_pattern, resolve_from_matches, resolve_include_exclude, select_files};
use tugger::value::Value;

fn make_file(dir: &std::path::Path, name: &str, content: &[u8]) -> tempfile::NamedTempFile {
    let mut f = tempfile::Builder::new().prefix(name).rand_bytes(0).tempfile_in(dir).unwrap();
    std::io::Write::write_all(f.as_file_mut(), content).unwrap();
    f
}

fn make_dir(dir: &std::path::Path, name: &str) -> tempfile::TempDir {
    tempfile::Builder::new().prefix(name).rand_bytes(0).tempdir_in(dir).unwrap()
}

fn names(paths: Vec<String>) -> Vec<String> {
    let mut v: Vec<String> = paths
        .into_iter()
        .map(|p| std::path::Path::new(&p).file_name().unwrap().to_string_lossy().to_string())
        .collect();
    v.sort();
    v
}

struct Fixture {
    dir: tempfile::TempDir,
    _files: Vec<tempfile::NamedTempFile>,
    _sub: tempfile::TempDir,
}

fn fixture() -> Fixture {
    let dir = tempfile::tempdir().unwrap();
    let files = ["a.txt", "b.txt", "skip.txt", "c.bin"].iter().map(|f| make_file(dir.path(), f, b"x")).collect();
    let sub = make_dir(dir.path(), "d.txt");
    Fixture { dir, _files: files, _sub: sub }
}

#[test]
fn glob_resolution_excludes_and_skips_directories() {
    let fx = fixture();
    let cwd = fx.dir.path().display().to_string();
    let files = resolve_include_exclude(
        &cwd,
        &Value::Str("*.txt".to_string()),
        &Value::List(vec![Value::Str("skip.txt".to_string())]),
    )
    .unwrap();
    let paths: Vec<String> = files.into_iter().map(|f| f.path).collect();
    assert_eq!(names(paths), vec!["a.txt".to_string(), "b.txt".to_string()]);
}

#[test]
fn glob_union_of_patterns_without_duplicates() {
    let fx = fixture();
    let cwd = fx.dir.path().display().to_string();
    let files = resolve_include_exclude(
        &cwd,
        &Value::List(vec![Value::Str("*.txt".to_string()), Value::Str("a.*".to_string())]),
        &Value::NoneValue,
    )
    .unwrap();
    let paths: Vec<String> = files.into_iter().map(|f| f.path).collect();
    assert_eq!(names(paths), vec!["a.txt".to_string(), "b.txt".to_string(), "skip.txt".to_string()]);
}

#[test]
fn glob_absolute_pattern_ignores_cwd() {
    let fx = fixture();
    let pattern = format!("{}/*.bin", fx.dir.path().display());
    let found = evaluate_glob("/nonexistent", &pattern).unwrap();
    assert_eq!(names(found), vec!["c.bin".to_string()]);
}

#[test]
fn glob_bad_pattern_fails() {
    assert!(evaluate_glob("/", "/[").is_err());
}

#[test]
fn glob_rejects_non_string_patterns() {
    let r = resolve_include_exclude("/", &Value::Int(1), &Value::NoneValue);
    assert!(matches!(r, Err(tugger::error::Error::TypeMismatch { .. })));
    let r = resolve_include_exclude("/", &Value::Str("x".to_string()), &Value::Int(1));
    assert!(matches!(r, Err(tugger::error::Error::TypeMismatch { .. })));
}

#[test]
fn search_pattern_relative_and_absolute() {
    assert_eq!(glob_search_pattern("/work", "*.txt"), "/work/*.txt");
    assert_eq!(glob_search_pattern("/work", "/abs/*.txt"), "/abs/*.txt");
}

#[test]
fn select_keeps_flagged_in_order() {
    let c = vec!["x".to_string(), "y".to_string(), "z".to_string()];
    assert_eq!(select_files(&c, &vec![true, false, true]), vec!["x".to_string(), "z".to_string()]);
}

#[test]
fn union_then_subtract() {
    let inc = vec!["a".to_string(), "b".to_string(), "a".to_string(), "c".to_string()];
    let exc = vec!["c".to_string()];
    assert_eq!(resolve_from_matches(&inc, &exc), vec!["a".to_string(), "b".to_string()]);
}

#[test]
fn glob_empty_pattern_lists_give_no_files() {
    let r = resolve_include_exclude("/nonexistent", &Value::List(vec![]), &Value::NoneValue).unwrap();
    assert!(r.is_empty());
    let r = resolve_include_exclude("/nonexistent", &Value::List(vec![]), &Value::List(vec![])).unwrap();
    assert!(r.is_empty());
}

#[test]
fn glob_type_error_names_offending_type() {
    let r = resolve_include_exclude("/", &Value::List(vec![Value::Str("a".to_string()), Value::Int(3)]), &Value::NoneValue);
    assert_eq!(
        r.unwrap_err(),
        tugger::error::Error::TypeMismatch {
            argument: "included".to_string(),
            expected: tugger::value::ValueType::String,
            got: tugger::value::ValueType::Int,
        }
    );
}
