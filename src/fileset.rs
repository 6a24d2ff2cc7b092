//! Resolving file patterns into a set of regular files: the files that
//! some pattern matches, minus those that an exclusion pattern matches.
use vstd::prelude::*;
use crate::error::{Error, mismatch};
use crate::manifest::SourceFile;
use crate::value::{
    Mismatch, Value, ValueType, list_mismatch, reported, required_list_arg, str_items, str_list_items,
};

verus! {

/// Whether `glob::Pattern::new` accepts `pattern`.
pub uninterp spec fn glob_pattern_ok(pattern: Seq<char>) -> bool;

/// Relies on `glob::glob`: the paths that match `pattern`, as they are on
/// disk when it runs. A pattern that `glob::Pattern::new` refuses is an
/// error before any disk access.
#[verifier::external_body]
fn glob_paths(pattern: &str) -> (r: Result<Vec<String>, String>)
    ensures
        !glob_pattern_ok(pattern@) ==> r is Err,
{
    match glob::glob(pattern) {
        Ok(paths) => paths.map(|p| p.map(|p| p.display().to_string()).map_err(|e| e.to_string())).collect(),
        Err(e) => Err(e.to_string()),
    }
}

/// Relies on `std::path::Path::is_file`: whether a regular file is at
/// `path` when it runs.
#[verifier::external_body]
fn is_regular_file(path: &str) -> (r: bool) {
    std::path::Path::new(path).is_file()
}

/// The pattern searched for: `pattern` itself where it is absolute, else
/// `pattern` under `cwd`.
pub open spec fn search_spec(cwd: Seq<char>, pattern: Seq<char>) -> Seq<char> {
    if pattern.len() > 0 && pattern[0] == '/' {
        pattern
    } else {
        cwd + seq!['/'] + pattern
    }
}

/// The pattern searched for: `pattern` itself where it is absolute, else
/// `pattern` under `cwd`.
pub fn glob_search_pattern(cwd: &str, pattern: &str) -> (r: String)
    ensures
        r@ == search_spec(cwd@, pattern@),
{
    if pattern.unicode_len() > 0 && pattern.get_char(0) == '/' {
        String::from_str(pattern)
    } else {
        let mut s = String::from_str(cwd);
        proof {
            reveal_strlit("/");
        }
        s.append("/");
        s.append(pattern);
        s
    }
}

/// The candidates whose flag is set, in order.
pub open spec fn selected(candidates: Seq<Seq<char>>, flags: Seq<bool>) -> Seq<Seq<char>>
    decreases candidates.len(),
{
    if candidates.len() == 0 {
        Seq::empty()
    } else {
        let rest = selected(candidates.drop_last(), flags);
        if flags[candidates.len() - 1] {
            rest.push(candidates.last())
        } else {
            rest
        }
    }
}

/// Keeps the candidates whose flag is set (the regular files), in order.
pub fn select_files(candidates: &Vec<String>, is_file: &Vec<bool>) -> (r: Vec<String>)
    requires
        candidates.len() == is_file.len(),
    ensures
        crate::text::views(r@) == selected(crate::text::views(candidates@), is_file@),
{
    let mut r: Vec<String> = Vec::new();
    let mut i: usize = 0;
    while i < candidates.len()
        invariant
            candidates.len() == is_file.len(),
            0 <= i <= candidates.len(),
            crate::text::views(r@) == selected(crate::text::views(candidates@).subrange(0, i as int), is_file@),
        decreases candidates.len() - i,
    {
        proof {
            assert(crate::text::views(candidates@).subrange(0, i as int + 1).drop_last()
                =~= crate::text::views(candidates@).subrange(0, i as int));
        }
        if is_file[i] {
            let ghost prev = r@;
            r.push(candidates[i].clone());
            proof {
                assert(crate::text::views(r@) =~= crate::text::views(prev).push(candidates@[i as int]@));
            }
        }
        i = i + 1;
    }
    proof {
        assert(crate::text::views(candidates@).subrange(0, i as int) =~= crate::text::views(candidates@));
    }
    r
}

/// The regular files matching `pattern`, taken relative to `cwd` unless it
/// is absolute. Which files come back depends on the disk; a pattern that
/// cannot be read or expanded fails.
pub fn evaluate_glob(cwd: &str, pattern: &str) -> (r: Result<Vec<String>, Error>)
    ensures
        !glob_pattern_ok(search_spec(cwd@, pattern@)) ==> r is Err,
        r is Err ==> r->Err_0 is IoFailure,
{
    let search = glob_search_pattern(cwd, pattern);
    let candidates = match glob_paths(search.as_str()) {
        Ok(c) => c,
        Err(e) => return Err(crate::error::io_failure(e)),
    };
    let mut flags: Vec<bool> = Vec::new();
    let mut i: usize = 0;
    while i < candidates.len()
        invariant
            0 <= i <= candidates.len(),
            flags.len() == i,
        decreases candidates.len() - i,
    {
        flags.push(is_regular_file(candidates[i].as_str()));
        i = i + 1;
    }
    Ok(select_files(&candidates, &flags))
}

/// `s` holds each element once.
pub open spec fn distinct(s: Seq<Seq<char>>) -> bool {
    forall|i: int, j: int| 0 <= i < j < s.len() ==> #[trigger] s[i] != #[trigger] s[j]
}

/// The files of `included` that are not in `excluded`, each once.
pub open spec fn resolved(included: Seq<Seq<char>>, excluded: Seq<Seq<char>>, r: Seq<Seq<char>>) -> bool {
    &&& distinct(r)
    &&& forall|p: Seq<char>| #[trigger] r.contains(p) <==> (included.contains(p) && !excluded.contains(p))
}

fn contains_str(v: &Vec<String>, s: &str) -> (r: bool)
    ensures
        r == crate::text::views(v@).contains(s@),
{
    let mut i: usize = 0;
    while i < v.len()
        invariant
            0 <= i <= v.len(),
            forall|j: int| 0 <= j < i ==> v@[j]@ != s@,
        decreases v.len() - i,
    {
        if crate::text::str_equal(v[i].as_str(), s) {
            proof {
                assert(crate::text::views(v@)[i as int] == s@);
            }
            return true;
        }
        i = i + 1;
    }
    proof {
        if crate::text::views(v@).contains(s@) {
            let j = choose|j: int| 0 <= j < v@.len() && crate::text::views(v@)[j] == s@;
            assert(v@[j]@ == s@);
        }
    }
    false
}

proof fn lemma_push_contains(s: Seq<Seq<char>>, x: Seq<char>, q: Seq<char>)
    ensures
        s.push(x).contains(q) <==> (s.contains(q) || q == x),
{
    if s.push(x).contains(q) && q != x {
        let k = choose|k: int| 0 <= k < s.len() + 1 && #[trigger] s.push(x)[k] == q;
        assert(s[k] == q);
    }
    if s.contains(q) {
        let k = choose|k: int| 0 <= k < s.len() && #[trigger] s[k] == q;
        assert(s.push(x)[k] == q);
    }
    if q == x {
        assert(s.push(x)[s.len() as int] == q);
    }
}

/// Union, then subtraction: every included file once, minus every excluded
/// one.
pub fn resolve_from_matches(included: &Vec<String>, excluded: &Vec<String>) -> (r: Vec<String>)
    ensures
        resolved(crate::text::views(included@), crate::text::views(excluded@), crate::text::views(r@)),
{
    let mut r: Vec<String> = Vec::new();
    let mut i: usize = 0;
    while i < included.len()
        invariant
            0 <= i <= included.len(),
            distinct(crate::text::views(r@)),
            forall|p: Seq<char>| #[trigger] crate::text::views(r@).contains(p) <==> (crate::text::views(
                included@.subrange(0, i as int),
            ).contains(p) && !crate::text::views(excluded@).contains(p)),
        decreases included.len() - i,
    {
        let ghost prev = r@;
        let p = included[i].as_str();
        proof {
            assert(crate::text::views(included@.subrange(0, i as int + 1)) =~= crate::text::views(
                included@.subrange(0, i as int),
            ).push(p@));
        }
        if !contains_str(excluded, p) && !contains_str(&r, p) {
            r.push(included[i].clone());
            proof {
                assert(crate::text::views(r@) =~= crate::text::views(prev).push(p@));
                assert forall|q: Seq<char>| #[trigger] crate::text::views(r@).contains(q) <==> (crate::text::views(
                    included@.subrange(0, i as int + 1),
                ).contains(q) && !crate::text::views(excluded@).contains(q)) by {
                    lemma_push_contains(crate::text::views(prev), p@, q);
                    lemma_push_contains(crate::text::views(included@.subrange(0, i as int)), p@, q);
                }
                assert forall|a: int, b: int| 0 <= a < b < r@.len() implies #[trigger] crate::text::views(r@)[a]
                    != #[trigger] crate::text::views(r@)[b] by {
                    if b == prev.len() {
                        assert(crate::text::views(prev)[a] == crate::text::views(r@)[a]);
                    } else {
                        assert(crate::text::views(prev)[a] == crate::text::views(r@)[a]);
                        assert(crate::text::views(prev)[b] == crate::text::views(r@)[b]);
                    }
                }
            }
        } else {
            proof {
                assert forall|q: Seq<char>| #[trigger] crate::text::views(r@).contains(q) <==> (crate::text::views(
                    included@.subrange(0, i as int + 1),
                ).contains(q) && !crate::text::views(excluded@).contains(q)) by {
                    lemma_push_contains(crate::text::views(included@.subrange(0, i as int)), p@, q);
                }
            }
        }
        i = i + 1;
    }
    proof {
        assert(included@.subrange(0, i as int) =~= included@);
    }
    r
}

/// The check of a pattern argument: one string, or a list of strings; none
/// where `allow_none` holds.
pub open spec fn patterns_check(name: Seq<char>, value: Value, allow_none: bool) -> Option<Mismatch> {
    match value {
        Value::Str(_) => None,
        Value::NoneValue => if allow_none {
            None
        } else {
            Some((name, ValueType::String, ValueType::NoneType))
        },
        Value::List(_) => list_mismatch(name, ValueType::String, value),
        _ => Some((name, ValueType::String, value.type_spec())),
    }
}

/// The patterns a pattern argument names.
pub open spec fn patterns_of(value: Value) -> Seq<Seq<char>> {
    match value {
        Value::Str(s) => seq![s@],
        Value::List(items) => str_items(items@),
        _ => Seq::empty(),
    }
}

/// The patterns of a pattern argument.
pub fn patterns_arg(name: &str, value: &Value, allow_none: bool) -> (r: Result<Vec<String>, Error>)
    ensures
        reported(r, patterns_check(name@, *value, allow_none)),
        r is Ok ==> crate::text::views(r->Ok_0@) == patterns_of(*value),
{
    match value {
        Value::Str(s) => {
            let mut v: Vec<String> = Vec::new();
            v.push(s.clone());
            proof {
                assert(crate::text::views(v@) =~= seq![s@]);
            }
            Ok(v)
        },
        Value::NoneValue => {
            if allow_none {
                let v: Vec<String> = Vec::new();
                proof {
                    assert(crate::text::views(v@) =~= Seq::<Seq<char>>::empty());
                }
                Ok(v)
            } else {
                Err(mismatch(name, ValueType::String, ValueType::NoneType))
            }
        },
        Value::List(_) => {
            required_list_arg(name, ValueType::String, value)?;
            Ok(str_list_items(value))
        },
        _ => Err(mismatch(name, ValueType::String, value.value_type())),
    }
}

/// All files that `patterns` match, one pattern after another.
fn glob_all(cwd: &str, patterns: &Vec<String>) -> (r: Result<Vec<String>, Error>)
    ensures
        patterns@.len() == 0 ==> r is Ok && r->Ok_0@.len() == 0,
        r is Err ==> r->Err_0 is IoFailure,
{
    let mut all: Vec<String> = Vec::new();
    let mut i: usize = 0;
    while i < patterns.len()
        invariant
            0 <= i <= patterns.len(),
            i == 0 ==> all@.len() == 0,
        decreases patterns.len() - i,
    {
        let mut found = evaluate_glob(cwd, patterns[i].as_str())?;
        all.append(&mut found);
        i = i + 1;
    }
    Ok(all)
}

/// Resolves the `included_patterns`, then subtracts what the `excluded_patterns`
/// match: the regular files found, each once, as source files. Patterns are
/// relative to `cwd` unless absolute.
pub fn resolve_include_exclude(cwd: &str, included_patterns: &Value, excluded_patterns: &Value) -> (r: Result<Vec<SourceFile>, Error>)
    ensures
        patterns_check("included"@, *included_patterns, false) is Some ==> reported(
            r,
            patterns_check("included"@, *included_patterns, false),
        ),
        patterns_check("included"@, *included_patterns, false) is None ==> (patterns_check(
            "excluded"@,
            *excluded_patterns,
            true,
        ) is Some ==> reported(r, patterns_check("excluded"@, *excluded_patterns, true))),
        patterns_check("included"@, *included_patterns, false) is None && patterns_check(
            "excluded"@,
            *excluded_patterns,
            true,
        ) is None && patterns_of(*included_patterns).len() == 0 && patterns_of(*excluded_patterns).len() == 0
            ==> r is Ok && r->Ok_0@.len() == 0,
        r is Err ==> r->Err_0 is TypeMismatch || r->Err_0 is IoFailure,
        r is Ok ==> distinct(r->Ok_0@.map_values(|f: SourceFile| f.path@)),
{
    let includes = patterns_arg("included", included_patterns, false)?;
    let excludes = patterns_arg("excluded", excluded_patterns, true)?;
    let included = glob_all(cwd, &includes)?;
    let excluded = glob_all(cwd, &excludes)?;
    let paths = resolve_from_matches(&included, &excluded);
    proof {
        if included@.len() == 0 && paths@.len() > 0 {
            assert(crate::text::views(paths@).contains(crate::text::views(paths@)[0]));
        }
    }
    let mut files: Vec<SourceFile> = Vec::new();
    let mut i: usize = 0;
    while i < paths.len()
        invariant
            0 <= i <= paths.len(),
            files@.map_values(|f: SourceFile| f.path@) =~= crate::text::views(paths@).subrange(0, i as int),
        decreases paths.len() - i,
    {
        let ghost prev = files@;
        files.push(SourceFile { path: paths[i].clone() });
        proof {
            assert(files@.map_values(|f: SourceFile| f.path@) =~= prev.map_values(|f: SourceFile| f.path@).push(
                paths@[i as int]@,
            ));
        }
        i = i + 1;
    }
    proof {
        assert(crate::text::views(paths@).subrange(0, i as int) =~= crate::text::views(paths@));
    }
    Ok(files)
}

} // verus!
