use tugger::error::Error;
use tugger::value::{
    optional_list_arg, optional_str_arg, required_dict_arg, required_list_arg, required_str_arg, required_type_arg,
    str_list_to_comma_string, Value, ValueType,
};

fn s(x: &str) -> Value {
    Value::Str(x.to_string())
}

fn mismatch(argument: &str, expected: ValueType, got: ValueType) -> Error {
    Error::TypeMismatch { argument: argument.to_string(), expected, got }
}

#[test]
fn required_list_of_names_offending_element_type() {
    let v = Value::List(vec![s("a"), Value::Int(3)]);
    let r = required_list_arg("depends", ValueType::String, &v);
    assert_eq!(r, Err(mismatch("depends", ValueType::String, ValueType::Int)));
}

#[test]
fn required_list_accepts_matching_elements_and_empty_list() {
    assert_eq!(required_list_arg("depends", ValueType::String, &Value::List(vec![s("a"), s("b")])), Ok(()));
    assert_eq!(required_list_arg("depends", ValueType::String, &Value::List(vec![])), Ok(()));
}

#[test]
fn required_list_rejects_non_list() {
    let r = required_list_arg("depends", ValueType::String, &s("a"));
    assert_eq!(r, Err(mismatch("depends", ValueType::List, ValueType::String)));
}

#[test]
fn required_list_reports_first_offender() {
    let v = Value::List(vec![s("a"), Value::NoneValue, Value::Int(1)]);
    let r = required_list_arg("xs", ValueType::String, &v);
    assert_eq!(r, Err(mismatch("xs", ValueType::String, ValueType::NoneType)));
}

#[test]
fn optional_list_accepts_none() {
    assert_eq!(optional_list_arg("depends", ValueType::String, &Value::NoneValue), Ok(()));
    let r = optional_list_arg("depends", ValueType::String, &Value::Int(2));
    assert_eq!(r, Err(mismatch("depends", ValueType::List, ValueType::Int)));
}

#[test]
fn required_string_argument() {
    assert_eq!(required_str_arg("name", &s("x")), Ok("x".to_string()));
    assert_eq!(required_str_arg("name", &Value::NoneValue), Err(mismatch("name", ValueType::String, ValueType::NoneType)));
}

#[test]
fn optional_string_argument() {
    assert_eq!(optional_str_arg("section", &Value::NoneValue), Ok(None));
    assert_eq!(optional_str_arg("section", &s("web")), Ok(Some("web".to_string())));
    assert_eq!(
        optional_str_arg("section", &Value::List(vec![])),
        Err(mismatch("section", ValueType::String, ValueType::List))
    );
}

#[test]
fn dict_argument_checks_keys_before_values() {
    let ok = Value::Dict(vec![(s("k"), s("v"))]);
    assert_eq!(required_dict_arg("env", ValueType::String, ValueType::String, &ok), Ok(()));
    let bad_key = Value::Dict(vec![(s("k"), s("v")), (Value::Int(1), Value::Int(2))]);
    assert_eq!(
        required_dict_arg("env", ValueType::String, ValueType::String, &bad_key),
        Err(mismatch("env", ValueType::String, ValueType::Int))
    );
    let bad_value = Value::Dict(vec![(s("k"), Value::NoneValue)]);
    assert_eq!(
        required_dict_arg("env", ValueType::String, ValueType::String, &bad_value),
        Err(mismatch("env", ValueType::String, ValueType::NoneType))
    );
    assert_eq!(
        required_dict_arg("env", ValueType::String, ValueType::String, &Value::NoneValue),
        Err(mismatch("env", ValueType::Dict, ValueType::NoneType))
    );
}

#[test]
fn exact_type_argument() {
    assert_eq!(required_type_arg("files", ValueType::String, &s("a")), Ok(()));
    assert_eq!(
        required_type_arg("files", ValueType::FileManifest, &s("a")),
        Err(mismatch("files", ValueType::FileManifest, ValueType::String))
    );
}

#[test]
fn comma_string_keeps_order() {
    let v = Value::List(vec![s("b"), s("a"), s("c")]);
    assert_eq!(str_list_to_comma_string(&v), "b, a, c");
    assert_eq!(str_list_to_comma_string(&Value::List(vec![s("one")])), "one");
    assert_eq!(str_list_to_comma_string(&Value::List(vec![])), "");
}

#[test]
fn type_names() {
    assert_eq!(ValueType::String.name(), "string");
    assert_eq!(ValueType::NoneType.name(), "NoneType");
    assert_eq!(ValueType::FileManifest.name(), "FileManifest");
    assert_eq!(Value::Int(1).value_type(), ValueType::Int);
}
