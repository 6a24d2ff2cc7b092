use tugger::control::{ControlFile, ControlParagraph};
use tugger::debian::{
    debian_control, debian_control_binary_package, debian_control_source_binary_package, debian_deb_archive,
};
use tugger::error::Error;
use tugger::manifest::FileManifest;
use tugger::value::{Object, Value, ValueType};

fn s(x: &str) -> Value {
    Value::Str(x.to_string())
}

fn n() -> Value {
    Value::NoneValue
}

fn list(xs: &[&str]) -> Value {
    Value::List(xs.iter().map(|x| s(x)).collect())
}

#[test]
fn uploaders_render_comma_space_joined() {
    let c = debian_control(
        &s("pkg"),
        &s("Me <me@x.com>"),
        &s("4.5.0"),
        &list(&["a@x.com", "b@x.com"]),
        &n(),
        &n(),
        &n(),
        &n(),
        &n(),
        &n(),
        &n(),
        &n(),
        &Value::List(vec![]),
    )
    .unwrap();
    assert_eq!(c.paragraphs.len(), 1);
    let fields = &c.paragraphs[0].fields;
    assert!(fields.contains(&("Uploaders".to_string(), "a@x.com, b@x.com".to_string())));
    let text = c.paragraphs[0].render();
    assert!(text.contains("Uploaders: a@x.com, b@x.com\n"));
    assert_eq!(
        text,
        "Source: pkg\nMaintainer: Me <me@x.com>\nStandards-Version: 4.5.0\nUploaders: a@x.com, b@x.com\n"
    );
}

#[test]
fn control_appends_binary_package_paragraphs() {
    let bin = debian_control_source_binary_package(
        &s("tool"),
        &s("amd64"),
        &s("A tool"),
        &s("utils"),
        &n(),
        &n(),
        &n(),
        &n(),
        &n(),
        &list(&["libc6", "zlib1g"]),
        &n(),
        &n(),
        &n(),
        &n(),
        &n(),
        &n(),
    )
    .unwrap();
    let c = debian_control(
        &s("pkg"),
        &s("Me"),
        &s("4"),
        &n(),
        &n(),
        &n(),
        &list(&["debhelper"]),
        &n(),
        &s("Git"),
        &s("https://example.org/x.git"),
        &n(),
        &n(),
        &Value::List(vec![Value::Object(Object::DebianControlSourceBinaryPackage(bin))]),
    )
    .unwrap();
    assert_eq!(c.paragraphs.len(), 2);
    assert!(c.paragraphs[0]
        .fields
        .contains(&("Vcs-Git".to_string(), "https://example.org/x.git".to_string())));
    assert!(c.paragraphs[0].fields.contains(&("Build-Depends".to_string(), "debhelper".to_string())));
    let mut file = ControlFile::new();
    for p in &c.paragraphs {
        file.add_paragraph(p.clone());
    }
    assert_eq!(
        file.render(),
        "Source: pkg\nMaintainer: Me\nStandards-Version: 4\nBuild-Depends: debhelper\nVcs-Git: https://example.org/x.git\n\nPackage: tool\nArchitecture: amd64\nDescription: A tool\nSection: utils\nDepends: libc6, zlib1g\n"
    );
}

#[test]
fn control_rejects_wrong_binary_packages() {
    let r = debian_control(
        &s("pkg"),
        &s("Me"),
        &s("4"),
        &n(),
        &n(),
        &n(),
        &n(),
        &n(),
        &n(),
        &n(),
        &n(),
        &n(),
        &Value::List(vec![s("oops")]),
    );
    assert_eq!(
        r.unwrap_err(),
        Error::TypeMismatch {
            argument: "binary_packages".to_string(),
            expected: ValueType::DebianControlSourceBinaryPackage,
            got: ValueType::String,
        }
    );
}

fn binary(package: Value, version: Value, depends: Value) -> Result<tugger::debian::DebianControlBinaryPackage, Error> {
    debian_control_binary_package(
        &package,
        &version,
        &s("all"),
        &s("Me"),
        &s("Thing"),
        &n(),
        &n(),
        &n(),
        &n(),
        &depends,
        &n(),
        &n(),
        &n(),
        &n(),
        &n(),
        &n(),
        &s("12"),
        &n(),
        &n(),
    )
}

#[test]
fn binary_package_fields_in_order() {
    let b = binary(s("thing"), s("1.0"), list(&["a", "b"])).unwrap();
    let keys: Vec<&str> = b.paragraph.fields.iter().map(|f| f.0.as_str()).collect();
    assert_eq!(keys, vec!["Package", "Version", "Architecture", "Maintainer", "Description", "Depends", "Installed-Size"]);
    assert_eq!(b.paragraph.get_entry("Depends"), Some("a, b".to_string()));
    assert_eq!(b.paragraph.get_entry("Missing"), None);
}

#[test]
fn binary_package_first_failing_argument() {
    let r = binary(Value::Int(1), Value::Int(2), n());
    assert_eq!(
        r.unwrap_err(),
        Error::TypeMismatch { argument: "package".to_string(), expected: ValueType::String, got: ValueType::Int }
    );
    let r = binary(s("thing"), s("1"), list(&[]));
    assert!(r.is_ok());
    let r = binary(s("thing"), s("1"), Value::List(vec![Value::Int(5)]));
    assert_eq!(
        r.unwrap_err(),
        Error::TypeMismatch { argument: "depends".to_string(), expected: ValueType::String, got: ValueType::Int }
    );
}

#[test]
fn deb_archive_file_name_and_checks() {
    let b = binary(s("thing"), s("1.0"), n()).unwrap();
    let m = FileManifest::new();
    let a = debian_deb_archive(
        &Value::Object(Object::DebianControlBinaryPackage(b)),
        &Value::Object(Object::FileManifest(m)),
    )
    .unwrap();
    assert_eq!(a.file_name(), Some("thing_1.0.deb".to_string()));
    let r = debian_deb_archive(&s("x"), &n());
    assert_eq!(
        r.unwrap_err(),
        Error::TypeMismatch {
            argument: "control_binary_package".to_string(),
            expected: ValueType::DebianControlBinaryPackage,
            got: ValueType::String,
        }
    );
}

#[test]
fn paragraph_without_version_has_no_file_name() {
    let mut p = ControlParagraph::new();
    p.add_entry("Package", "x".to_string());
    assert_eq!(tugger::deb::deb_file_name(&p), None);
    p.add_entry("Version", "2".to_string());
    assert_eq!(tugger::deb::deb_file_name(&p), Some("x_2.deb".to_string()));
}
