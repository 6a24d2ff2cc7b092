//! Dynamically typed script values and the checks that turn them into typed
//! arguments.
use vstd::prelude::*;
use crate::error::{Error, is_mismatch, mismatch};
use crate::manifest::{FileManifest, SourceFile};
use crate::pipeline::{Pipeline, TarArchive};
use crate::snap::{Snap, SnapApp, SnapPart, Snapcraft};
use crate::debian::{
    DebianControl, DebianControlBinaryPackage, DebianControlSourceBinaryPackage, DebianDebArchive,
};

verus! {

/// The type tag of a script value.
#[derive(Debug, Clone, Copy, PartialEq, Eq, Structural)]
pub enum ValueType {
    String,
    Int,
    List,
    Dict,
    NoneType,
    SourceFile,
    FileManifest,
    TarArchive,
    Pipeline,
    DebianControlSourceBinaryPackage,
    DebianControl,
    DebianControlBinaryPackage,
    DebianDebArchive,
    Snap,
    SnapPart,
    SnapApp,
    Snapcraft,
}

impl ValueType {
    /// The name scripts know the type by.
    pub open spec fn name_spec(&self) -> Seq<char> {
        match self {
            ValueType::String => "string"@,
            ValueType::Int => "int"@,
            ValueType::List => "list"@,
            ValueType::Dict => "dict"@,
            ValueType::NoneType => "NoneType"@,
            ValueType::SourceFile => "SourceFile"@,
            ValueType::FileManifest => "FileManifest"@,
            ValueType::TarArchive => "TarArchive"@,
            ValueType::Pipeline => "Pipeline"@,
            ValueType::DebianControlSourceBinaryPackage => "DebianControlSourceBinaryPackage"@,
            ValueType::DebianControl => "DebianControl"@,
            ValueType::DebianControlBinaryPackage => "DebianControlBinaryPackage"@,
            ValueType::DebianDebArchive => "DebianDebArchive"@,
            ValueType::Snap => "Snap"@,
            ValueType::SnapPart => "SnapPart"@,
            ValueType::SnapApp => "SnapApp"@,
            ValueType::Snapcraft => "Snapcraft"@,
        }
    }

    /// The name scripts know the type by.
    pub fn name(&self) -> (r: &'static str)
        ensures
            r@ == self.name_spec(),
    {
        match self {
            ValueType::String => "string",
            ValueType::Int => "int",
            ValueType::List => "list",
            ValueType::Dict => "dict",
            ValueType::NoneType => "NoneType",
            ValueType::SourceFile => "SourceFile",
            ValueType::FileManifest => "FileManifest",
            ValueType::TarArchive => "TarArchive",
            ValueType::Pipeline => "Pipeline",
            ValueType::DebianControlSourceBinaryPackage => "DebianControlSourceBinaryPackage",
            ValueType::DebianControl => "DebianControl",
            ValueType::DebianControlBinaryPackage => "DebianControlBinaryPackage",
            ValueType::DebianDebArchive => "DebianDebArchive",
            ValueType::Snap => "Snap",
            ValueType::SnapPart => "SnapPart",
            ValueType::SnapApp => "SnapApp",
            ValueType::Snapcraft => "Snapcraft",
        }
    }
}

/// A native object handed to scripts: opaque and immutable to them.
#[derive(Debug, Clone)]
pub enum Object {
    SourceFile(SourceFile),
    FileManifest(FileManifest),
    TarArchive(TarArchive),
    Pipeline(Pipeline),
    DebianControlSourceBinaryPackage(DebianControlSourceBinaryPackage),
    DebianControl(DebianControl),
    DebianControlBinaryPackage(DebianControlBinaryPackage),
    DebianDebArchive(DebianDebArchive),
    Snap(Snap),
    SnapPart(SnapPart),
    SnapApp(SnapApp),
    Snapcraft(Snapcraft),
}

/// A script value.
#[derive(Debug)]
pub enum Value {
    Str(String),
    Int(i64),
    List(Vec<Value>),
    Dict(Vec<(Value, Value)>),
    NoneValue,
    Object(Object),
}

impl Object {
    /// The truth value scripts see: false for files, manifests, tar archives
    /// and pipelines, true for the Debian and snap objects.
    pub open spec fn truth_spec(&self) -> bool {
        !(self is SourceFile || self is FileManifest || self is TarArchive || self is Pipeline)
    }

    /// The truth value scripts see.
    pub fn to_bool(&self) -> (r: bool)
        ensures
            r == self.truth_spec(),
    {
        match self {
            Object::SourceFile(_) | Object::FileManifest(_) | Object::TarArchive(_) | Object::Pipeline(_) => false,
            _ => true,
        }
    }

    /// The type tag of the object.
    pub open spec fn type_spec(&self) -> ValueType {
        match self {
            Object::SourceFile(_) => ValueType::SourceFile,
            Object::FileManifest(_) => ValueType::FileManifest,
            Object::TarArchive(_) => ValueType::TarArchive,
            Object::Pipeline(_) => ValueType::Pipeline,
            Object::DebianControlSourceBinaryPackage(_) => ValueType::DebianControlSourceBinaryPackage,
            Object::DebianControl(_) => ValueType::DebianControl,
            Object::DebianControlBinaryPackage(_) => ValueType::DebianControlBinaryPackage,
            Object::DebianDebArchive(_) => ValueType::DebianDebArchive,
            Object::Snap(_) => ValueType::Snap,
            Object::SnapPart(_) => ValueType::SnapPart,
            Object::SnapApp(_) => ValueType::SnapApp,
            Object::Snapcraft(_) => ValueType::Snapcraft,
        }
    }

    /// The type tag of the object.
    pub fn value_type(&self) -> (r: ValueType)
        ensures
            r == self.type_spec(),
    {
        match self {
            Object::SourceFile(_) => ValueType::SourceFile,
            Object::FileManifest(_) => ValueType::FileManifest,
            Object::TarArchive(_) => ValueType::TarArchive,
            Object::Pipeline(_) => ValueType::Pipeline,
            Object::DebianControlSourceBinaryPackage(_) => ValueType::DebianControlSourceBinaryPackage,
            Object::DebianControl(_) => ValueType::DebianControl,
            Object::DebianControlBinaryPackage(_) => ValueType::DebianControlBinaryPackage,
            Object::DebianDebArchive(_) => ValueType::DebianDebArchive,
            Object::Snap(_) => ValueType::Snap,
            Object::SnapPart(_) => ValueType::SnapPart,
            Object::SnapApp(_) => ValueType::SnapApp,
            Object::Snapcraft(_) => ValueType::Snapcraft,
        }
    }
}

impl Value {
    /// The type tag of the value.
    pub open spec fn type_spec(&self) -> ValueType {
        match self {
            Value::Str(_) => ValueType::String,
            Value::Int(_) => ValueType::Int,
            Value::List(_) => ValueType::List,
            Value::Dict(_) => ValueType::Dict,
            Value::NoneValue => ValueType::NoneType,
            Value::Object(o) => o.type_spec(),
        }
    }

    /// The type tag of the value.
    pub fn value_type(&self) -> (r: ValueType)
        ensures
            r == self.type_spec(),
    {
        match self {
            Value::Str(_) => ValueType::String,
            Value::Int(_) => ValueType::Int,
            Value::List(_) => ValueType::List,
            Value::Dict(_) => ValueType::Dict,
            Value::NoneValue => ValueType::NoneType,
            Value::Object(o) => o.value_type(),
        }
    }
}

/// `value` is a list whose elements all have type `t`.
pub open spec fn is_list_of(value: Value, t: ValueType) -> bool {
    &&& value matches Value::List(items)
    &&& forall|i: int| 0 <= i < items@.len() ==> (#[trigger] items@[i]).type_spec() == t
}

/// An argument error: the argument, the type it wanted, the type it got.
pub type Mismatch = (Seq<char>, ValueType, ValueType);

/// `r` is what a check that found `m` gives: success where nothing was
/// found, else the type mismatch `m`.
pub open spec fn reported<T>(r: Result<T, Error>, m: Option<Mismatch>) -> bool {
    match m {
        None => r is Ok,
        Some(m) => r is Err && is_mismatch(r->Err_0, m.0, m.1, m.2),
    }
}

/// The first of two checks that finds something.
pub open spec fn or_else(a: Option<Mismatch>, b: Option<Mismatch>) -> Option<Mismatch> {
    if a is Some {
        a
    } else {
        b
    }
}

/// The first position from `i` on whose type is not `t` (the length where
/// there is none).
pub open spec fn find_bad(items: Seq<Value>, t: ValueType, i: int) -> int
    decreases items.len() - i,
{
    if i < 0 || i >= items.len() {
        items.len() as int
    } else if items[i].type_spec() != t {
        i
    } else {
        find_bad(items, t, i + 1)
    }
}

/// The check of a required string argument.
pub open spec fn str_mismatch(name: Seq<char>, v: Value) -> Option<Mismatch> {
    match v {
        Value::Str(_) => None,
        _ => Some((name, ValueType::String, v.type_spec())),
    }
}

/// The check of an optional string argument.
pub open spec fn opt_str_mismatch(name: Seq<char>, v: Value) -> Option<Mismatch> {
    match v {
        Value::NoneValue => None,
        _ => str_mismatch(name, v),
    }
}

/// The check of a required list of `t`: the first element of another type
/// is reported.
pub open spec fn list_mismatch(name: Seq<char>, t: ValueType, v: Value) -> Option<Mismatch> {
    match v {
        Value::List(items) => {
            let k = find_bad(items@, t, 0);
            if k < items@.len() {
                Some((name, t, items@[k].type_spec()))
            } else {
                None
            }
        },
        _ => Some((name, ValueType::List, v.type_spec())),
    }
}

/// The check of an optional list of `t`.
pub open spec fn opt_list_mismatch(name: Seq<char>, t: ValueType, v: Value) -> Option<Mismatch> {
    match v {
        Value::NoneValue => None,
        _ => list_mismatch(name, t, v),
    }
}

/// The check of an argument of exactly the type `t`.
pub open spec fn type_mismatch(name: Seq<char>, t: ValueType, v: Value) -> Option<Mismatch> {
    if v.type_spec() == t {
        None
    } else {
        Some((name, t, v.type_spec()))
    }
}

/// A required string argument.
pub fn required_str_arg(name: &str, value: &Value) -> (r: Result<String, Error>)
    ensures
        reported(r, str_mismatch(name@, *value)),
        r is Ok ==> r->Ok_0@ == value->Str_0@,
{
    match value {
        Value::Str(s) => Ok(s.clone()),
        _ => Err(mismatch(name, ValueType::String, value.value_type())),
    }
}

/// An optional string argument: `None` where the value is none.
pub fn optional_str_arg(name: &str, value: &Value) -> (r: Result<Option<String>, Error>)
    ensures
        reported(r, opt_str_mismatch(name@, *value)),
        r is Ok ==> match value {
            Value::Str(s) => r->Ok_0 is Some && r->Ok_0->Some_0@ == s@,
            _ => r->Ok_0 is None,
        },
{
    match value {
        Value::Str(s) => Ok(Some(s.clone())),
        Value::NoneValue => Ok(None),
        _ => Err(mismatch(name, ValueType::String, value.value_type())),
    }
}

/// A required list argument whose elements all have type `value_type`.
pub fn required_list_arg(arg_name: &str, value_type: ValueType, value: &Value) -> (r: Result<(), Error>)
    ensures
        reported(r, list_mismatch(arg_name@, value_type, *value)),
        r is Ok ==> is_list_of(*value, value_type),
{
    match value {
        Value::List(items) => {
            let mut i: usize = 0;
            while i < items.len()
                invariant
                    0 <= i <= items.len(),
                    *value == Value::List(*items),
                    find_bad(items@, value_type, 0) == find_bad(items@, value_type, i as int),
                    forall|j: int| 0 <= j < i ==> (#[trigger] items@[j]).type_spec() == value_type,
                decreases items.len() - i,
            {
                let t = items[i].value_type();
                if t != value_type {
                    return Err(mismatch(arg_name, value_type, t));
                }
                i = i + 1;
            }
            Ok(())
        },
        _ => Err(mismatch(arg_name, ValueType::List, value.value_type())),
    }
}

/// An optional list argument: none, or a list whose elements all have type
/// `value_type`.
pub fn optional_list_arg(arg_name: &str, value_type: ValueType, value: &Value) -> (r: Result<(), Error>)
    ensures
        reported(r, opt_list_mismatch(arg_name@, value_type, *value)),
        r is Ok && !(value is NoneValue) ==> is_list_of(*value, value_type),
{
    match value {
        Value::NoneValue => Ok(()),
        _ => required_list_arg(arg_name, value_type, value),
    }
}

/// The first entry from `i` on whose key is not of type `kt` or whose value
/// is not of type `vt` (the length where there is none).
pub open spec fn find_bad_entry(entries: Seq<(Value, Value)>, kt: ValueType, vt: ValueType, i: int) -> int
    decreases entries.len() - i,
{
    if i < 0 || i >= entries.len() {
        entries.len() as int
    } else if entries[i].0.type_spec() != kt || entries[i].1.type_spec() != vt {
        i
    } else {
        find_bad_entry(entries, kt, vt, i + 1)
    }
}

/// The check of a required dict with keys of type `kt` and values of type
/// `vt`: entries in order, the key before the value.
pub open spec fn dict_mismatch(name: Seq<char>, kt: ValueType, vt: ValueType, v: Value) -> Option<Mismatch> {
    match v {
        Value::Dict(entries) => {
            let k = find_bad_entry(entries@, kt, vt, 0);
            if k < entries@.len() {
                if entries@[k].0.type_spec() != kt {
                    Some((name, kt, entries@[k].0.type_spec()))
                } else {
                    Some((name, vt, entries@[k].1.type_spec()))
                }
            } else {
                None
            }
        },
        _ => Some((name, ValueType::Dict, v.type_spec())),
    }
}

/// `value` is a dict whose keys all have type `kt` and values type `vt`.
pub open spec fn is_dict_of(value: Value, kt: ValueType, vt: ValueType) -> bool {
    &&& value matches Value::Dict(entries)
    &&& forall|i: int| 0 <= i < entries@.len() ==> (#[trigger] entries@[i]).0.type_spec() == kt && entries@[i].1.type_spec() == vt
}

/// A required dict argument with keys of type `key_type` and values of type
/// `value_type`. Entries are checked in order, the key before the value.
pub fn required_dict_arg(arg_name: &str, key_type: ValueType, value_type: ValueType, value: &Value) -> (r: Result<(), Error>)
    ensures
        reported(r, dict_mismatch(arg_name@, key_type, value_type, *value)),
        r is Ok ==> is_dict_of(*value, key_type, value_type),
{
    match value {
        Value::Dict(entries) => {
            let mut i: usize = 0;
            while i < entries.len()
                invariant
                    0 <= i <= entries.len(),
                    *value == Value::Dict(*entries),
                    find_bad_entry(entries@, key_type, value_type, 0) == find_bad_entry(entries@, key_type, value_type, i as int),
                    forall|j: int| 0 <= j < i ==> (#[trigger] entries@[j]).0.type_spec() == key_type && entries@[j].1.type_spec() == value_type,
                decreases entries.len() - i,
            {
                let kt = entries[i].0.value_type();
                if kt != key_type {
                    return Err(mismatch(arg_name, key_type, kt));
                }
                let vt = entries[i].1.value_type();
                if vt != value_type {
                    return Err(mismatch(arg_name, value_type, vt));
                }
                i = i + 1;
            }
            Ok(())
        },
        _ => Err(mismatch(arg_name, ValueType::Dict, value.value_type())),
    }
}

/// An argument that must have exactly the type `expected`.
pub fn required_type_arg(arg_name: &str, expected: ValueType, value: &Value) -> (r: Result<(), Error>)
    ensures
        reported(r, type_mismatch(arg_name@, expected, *value)),
{
    let t = value.value_type();
    if t == expected {
        Ok(())
    } else {
        Err(mismatch(arg_name, expected, t))
    }
}

/// The strings of a list of strings.
pub open spec fn str_items(items: Seq<Value>) -> Seq<Seq<char>> {
    items.map_values(|v: Value| match v {
        Value::Str(s) => s@,
        _ => Seq::empty(),
    })
}

/// The strings held by a list of strings.
pub fn str_list_items(value: &Value) -> (r: Vec<String>)
    requires
        is_list_of(*value, ValueType::String),
    ensures
        crate::text::views(r@) == str_items(value->List_0@),
{
    let mut r: Vec<String> = Vec::new();
    match value {
        Value::List(items) => {
            let mut i: usize = 0;
            while i < items.len()
                invariant
                    0 <= i <= items.len(),
                    is_list_of(*value, ValueType::String),
                    *value == Value::List(*items),
                    crate::text::views(r@) =~= str_items(items@.subrange(0, i as int)),
                decreases items.len() - i,
            {
                proof {
                    assert(items@.subrange(0, i as int + 1) =~= items@.subrange(0, i as int).push(items@[i as int]));
                }
                match &items[i] {
                    Value::Str(s) => {
                        let c = s.clone();
                        let ghost prev = r@;
                        r.push(c);
                        proof {
                            assert(crate::text::views(r@) =~= crate::text::views(prev).push(c@));
                            assert(str_items(items@.subrange(0, i as int + 1)) =~= str_items(
                                items@.subrange(0, i as int),
                            ).push(s@));
                        }
                    },
                    _ => {
                        assert(items@[i as int].type_spec() == ValueType::String);
                    },
                }
                i = i + 1;
            }
            proof {
                assert(items@.subrange(0, i as int) =~= items@);
            }
        },
        _ => {},
    }
    r
}

/// The strings of a list of strings joined by `", "`.
pub fn str_list_to_comma_string(value: &Value) -> (r: String)
    requires
        is_list_of(*value, ValueType::String),
    ensures
        r@ == crate::text::join_spec(str_items(value->List_0@), ", "@),
{
    let items = str_list_items(value);
    crate::text::join_strings(&items, ", ")
}

} // verus!
