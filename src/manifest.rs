//! Source files and file manifests: archive paths mapped to source paths.
use vstd::prelude::*;
use crate::error::{Error, mismatch};
use crate::value::{Object, Value, ValueType, opt_str_mismatch, or_else, reported};
use crate::text::{str_lt, str_less, lemma_str_lt_total, lemma_str_lt_transitive, lemma_str_lt_irreflexive};

verus! {

/// One resolved path to a regular file.
#[derive(Debug, Clone)]
pub struct SourceFile {
    pub path: String,
}

/// Archive-relative paths mapped to source paths, kept in key order with
/// each key once.
#[derive(Debug, Clone)]
pub struct FileManifest {
    pub files: Vec<(String, String)>,
}

/// The entries of a manifest as character sequences.
pub type Entries = Seq<(Seq<char>, Seq<char>)>;

/// Keys in strictly increasing order.
pub open spec fn sorted_keys(s: Entries) -> bool {
    forall|i: int, j: int| 0 <= i < j < s.len() ==> str_lt(#[trigger] s[i].0, #[trigger] s[j].0)
}

/// `s` has an entry with key `k`.
pub open spec fn has_key(s: Entries, k: Seq<char>) -> bool {
    exists|i: int| 0 <= i < s.len() && #[trigger] s[i].0 == k
}

/// What inserting `(k, v)` into the entries `s` leaves: the entry of `k`
/// replaced, or a new entry placed in order.
pub open spec fn inserted(s: Entries, k: Seq<char>, v: Seq<char>, r: Entries) -> bool {
    ||| exists|i: int| 0 <= i < s.len() && s[i].0 == k && r == #[trigger] s.update(i, (k, v))
    ||| !has_key(s, k) && exists|p: int| 0 <= p <= s.len() && r == #[trigger] s.insert(p, (k, v))
}

impl View for FileManifest {
    type V = Entries;

    open spec fn view(&self) -> Entries {
        self.files@.map_values(|e: (String, String)| (e.0@, e.1@))
    }
}

impl FileManifest {
    /// Keys in order, each once.
    pub open spec fn wf(&self) -> bool {
        sorted_keys(self@)
    }

    /// A manifest with no entries.
    pub fn new() -> (r: FileManifest)
        ensures
            r.wf(),
            r@.len() == 0,
    {
        FileManifest { files: Vec::new() }
    }

    /// The number of entries.
    pub fn len(&self) -> (r: usize)
        ensures
            r == self@.len(),
    {
        self.files.len()
    }

    /// Maps `key` to `source`, replacing an earlier entry for `key`.
    pub fn insert(&mut self, key: String, source: String)
        requires
            old(self).wf(),
        ensures
            final(self).wf(),
            inserted(old(self)@, key@, source@, final(self)@),
    {
        let ghost s = self@;
        let mut i: usize = 0;
        while i < self.files.len() && str_less(self.files[i].0.as_str(), key.as_str())
            invariant
                self@ == s,
                sorted_keys(s),
                0 <= i <= s.len(),
                forall|j: int| 0 <= j < i ==> str_lt(#[trigger] s[j].0, key@),
            decreases self.files.len() - i,
        {
            i = i + 1;
        }
        if i < self.files.len() && self.files[i].0 == key {
            proof {
                assert(s[i as int].0 == key@);
            }
            self.files.set(i, (key, source));
            proof {
                assert(self@ =~= s.update(i as int, (key@, source@)));
                assert forall|a: int, b: int| 0 <= a < b < self@.len() implies str_lt(
                    #[trigger] self@[a].0,
                    #[trigger] self@[b].0,
                ) by {
                    assert(s[a].0 == self@[a].0 && s[b].0 == self@[b].0);
                }
            }
        } else {
            let ghost ki = s[i as int].0;
            proof {
                if i < s.len() {
                    assert(!str_lt(ki, key@));
                    lemma_str_lt_total(ki, key@);
                }
            }
            self.files.insert(i, (key, source));
            proof {
                let r = s.insert(i as int, (key@, source@));
                assert(self@ =~= r);
                assert forall|j: int| i <= j < s.len() implies str_lt(key@, #[trigger] s[j].0) by {
                    if j > i {
                        lemma_str_lt_transitive(key@, ki, s[j].0);
                    }
                }
                assert(!has_key(s, key@)) by {
                    if exists|j: int| 0 <= j < s.len() && #[trigger] s[j].0 == key@ {
                        let j = choose|j: int| 0 <= j < s.len() && #[trigger] s[j].0 == key@;
                        lemma_str_lt_irreflexive(key@);
                    }
                }
                assert forall|a: int, b: int| 0 <= a < b < r.len() implies str_lt(
                    #[trigger] r[a].0,
                    #[trigger] r[b].0,
                ) by {
                    if b < i {
                        assert(r[a] == s[a] && r[b] == s[b]);
                    } else if a < i && b == i {
                    } else if a < i && b > i {
                        assert(r[b] == s[b - 1]);
                    } else if a == i {
                        assert(r[b] == s[b - 1]);
                    } else {
                        assert(r[a] == s[a - 1]);
                        assert(r[b] == s[b - 1]);
                        assert(str_lt(s[a - 1].0, s[b - 1].0));
                    }
                }
            }
        }
    }

    /// An independent copy with the same entries.
    pub fn snapshot(&self) -> (r: FileManifest)
        ensures
            r@ == self@,
    {
        let mut files: Vec<(String, String)> = Vec::new();
        let mut i: usize = 0;
        while i < self.files.len()
            invariant
                0 <= i <= self.files.len(),
                files@.map_values(|e: (String, String)| (e.0@, e.1@)) =~= self@.subrange(0, i as int),
            decreases self.files.len() - i,
        {
            let k = self.files[i].0.clone();
            let v = self.files[i].1.clone();
            let ghost prev = files@;
            files.push((k, v));
            proof {
                assert(files@ == prev.push((k, v)));
                assert(self@.subrange(0, i as int + 1) =~= self@.subrange(0, i as int).push(self@[i as int]));
                assert(files@.map_values(|e: (String, String)| (e.0@, e.1@)) =~= prev.map_values(
                    |e: (String, String)| (e.0@, e.1@),
                ).push((k@, v@)));
            }
            i = i + 1;
        }
        FileManifest { files }
    }
}

/// `s` without the `'/'` characters at its end.
pub open spec fn trim_end_slashes(s: Seq<char>) -> Seq<char>
    decreases s.len(),
{
    if s.len() > 0 && s.last() == '/' {
        trim_end_slashes(s.drop_last())
    } else {
        s
    }
}

/// `s` without the `'/'` characters at its start.
pub open spec fn trim_start_slashes(s: Seq<char>) -> Seq<char>
    decreases s.len(),
{
    if s.len() > 0 && s[0] == '/' {
        trim_start_slashes(s.drop_first())
    } else {
        s
    }
}

/// The part of `path` below `root`, if `path` is `root` or lies under it.
/// Trailing separators of `root` and leading separators of the rest do not
/// count.
pub open spec fn relative_spec(path: Seq<char>, root: Seq<char>) -> Option<Seq<char>> {
    let r = trim_end_slashes(root);
    if path == r {
        Some(Seq::empty())
    } else if r.len() < path.len() && path.subrange(0, r.len() as int) == r && path[r.len() as int] == '/' {
        Some(trim_start_slashes(path.subrange(r.len() as int + 1, path.len() as int)))
    } else {
        None
    }
}

/// The manifest key for a relative path under an optional prefix: the two
/// joined by one separator, with the prefix's own leading and trailing
/// separators dropped.
pub open spec fn key_spec(prefix: Option<Seq<char>>, rel: Seq<char>) -> Seq<char> {
    match prefix {
        None => rel,
        Some(p) => {
            let q = trim_start_slashes(trim_end_slashes(p));
            if q.len() == 0 {
                rel
            } else if rel.len() == 0 {
                q
            } else {
                q + seq!['/'] + rel
            }
        }
    }
}

fn trim_end(s: &str) -> (r: String)
    ensures
        r@ == trim_end_slashes(s@),
{
    let mut n = s.unicode_len();
    proof {
        assert(s@.subrange(0, n as int) =~= s@);
    }
    while n > 0 && s.get_char(n - 1) == '/'
        invariant
            n <= s@.len(),
            trim_end_slashes(s@) == trim_end_slashes(s@.subrange(0, n as int)),
        decreases n,
    {
        proof {
            assert(s@.subrange(0, n as int).drop_last() =~= s@.subrange(0, n - 1));
        }
        n = n - 1;
    }
    String::from_str(s.substring_char(0, n))
}

fn trim_start(s: &str) -> (r: String)
    ensures
        r@ == trim_start_slashes(s@),
{
    let len = s.unicode_len();
    let mut n: usize = 0;
    proof {
        assert(s@.subrange(0, len as int) =~= s@);
    }
    while n < len && s.get_char(n) == '/'
        invariant
            len == s@.len(),
            n <= len,
            trim_start_slashes(s@) == trim_start_slashes(s@.subrange(n as int, len as int)),
        decreases len - n,
    {
        proof {
            assert(s@.subrange(n as int, len as int).drop_first() =~= s@.subrange(n + 1, len as int));
        }
        n = n + 1;
    }
    String::from_str(s.substring_char(n, len))
}

fn starts_with(s: &str, p: &str) -> (r: bool)
    ensures
        r == (p@.len() <= s@.len() && s@.subrange(0, p@.len() as int) == p@),
{
    let ls = s.unicode_len();
    let lp = p.unicode_len();
    if lp > ls {
        return false;
    }
    let mut i: usize = 0;
    while i < lp
        invariant
            ls == s@.len(),
            lp == p@.len(),
            lp <= ls,
            i <= lp,
            forall|j: int| 0 <= j < i ==> s@[j] == p@[j],
        decreases lp - i,
    {
        if s.get_char(i) != p.get_char(i) {
            proof {
                assert(s@.subrange(0, lp as int)[i as int] != p@[i as int]);
            }
            return false;
        }
        i = i + 1;
    }
    proof {
        assert(s@.subrange(0, lp as int) =~= p@);
    }
    true
}

/// The part of `path` below `root`, or `None` where `path` is not under it.
pub fn relative_path(path: &str, root: &str) -> (r: Option<String>)
    ensures
        match r {
            Some(s) => relative_spec(path@, root@) == Some(s@),
            None => relative_spec(path@, root@).is_none(),
        },
{
    let r = trim_end(root);
    let lp = path.unicode_len();
    let lr = r.unicode_len();
    if lp == lr && starts_with(path, r.as_str()) {
        proof {
            assert(path@ =~= path@.subrange(0, r@.len() as int));
        }
        return Some(String::new());
    }
    if lr < lp && starts_with(path, r.as_str()) && path.get_char(lr) == '/' {
        proof {
            assert(path@ != r@);
        }
        let rest = path.substring_char(lr + 1, lp);
        return Some(trim_start(rest));
    }
    proof {
        if path@ == r@ {
            assert(path@.subrange(0, r@.len() as int) =~= path@);
        }
    }
    None
}

/// The manifest key for `rel` under `prefix`.
pub fn manifest_key(prefix: Option<&str>, rel: &str) -> (r: String)
    ensures
        r@ == key_spec(
            match prefix {
                Some(p) => Some(p@),
                None => None,
            },
            rel@,
        ),
{
    match prefix {
        None => String::from_str(rel),
        Some(p) => {
            let t = trim_end(p);
            let q = trim_start(t.as_str());
            if q.unicode_len() == 0 {
                String::from_str(rel)
            } else if rel.unicode_len() == 0 {
                q
            } else {
                let mut k = q;
                k.append("/");
                proof {
                    reveal_strlit("/");
                }
                k.append(rel);
                k
            }
        }
    }
}

/// The key of the source at `path`, or `None` where it is not under `root`.
pub open spec fn entry_key(path: Seq<char>, root: Seq<char>, prefix: Option<Seq<char>>) -> Option<Seq<char>> {
    match relative_spec(path, root) {
        Some(rel) => Some(key_spec(prefix, rel)),
        None => None,
    }
}

/// The first of `paths` that is not under `root`, if any.
pub open spec fn first_outside(paths: Seq<Seq<char>>, root: Seq<char>, i: int) -> bool {
    &&& 0 <= i < paths.len()
    &&& relative_spec(paths[i], root).is_none()
    &&& forall|j: int| 0 <= j < i ==> relative_spec(#[trigger] paths[j], root).is_some()
}

/// The manifest that inserting the entries `(key of paths[i], sources[i])`
/// one by one into `m` builds.
pub open spec fn built_from(
    m: Entries,
    paths: Seq<Seq<char>>,
    sources: Seq<Seq<char>>,
    root: Seq<char>,
    prefix: Option<Seq<char>>,
    r: Entries,
) -> bool
    decreases paths.len(),
{
    if paths.len() == 0 {
        r == m
    } else {
        exists|mid: Entries|
            #![trigger sorted_keys(mid)]
            sorted_keys(mid) && built_from(
                m,
                paths.drop_last(),
                sources.subrange(0, paths.len() - 1),
                root,
                prefix,
                mid,
            ) && inserted(
                mid,
                entry_key(paths.last(), root, prefix)->Some_0,
                sources[paths.len() - 1],
                r,
            )
    }
}

/// The paths of a list of source files.
pub open spec fn paths_of(files: Seq<SourceFile>) -> Seq<Seq<char>> {
    files.map_values(|f: SourceFile| f.path@)
}

/// Builds a manifest from `files`, whose resolved source paths are `sources`
/// (one for each file, in order): each file is keyed by its path relative to
/// `root`, under `prefix`; later files replace earlier ones of the same key.
/// A file not under `root` fails the whole build.
pub fn manifest_from_sources(
    files: &Vec<SourceFile>,
    sources: &Vec<String>,
    root: &str,
    prefix: Option<&str>,
) -> (r: Result<FileManifest, Error>)
    requires
        sources.len() == files.len(),
    ensures
        (forall|i: int| 0 <= i < files.len() ==> relative_spec(#[trigger] files@[i].path@, root@).is_some()) ==> r is Ok,
        match r {
            Ok(m) => {
                &&& m.wf()
                &&& forall|i: int| 0 <= i < files.len() ==> relative_spec(#[trigger] files@[i].path@, root@).is_some()
                &&& built_from(
                    Seq::empty(),
                    paths_of(files@),
                    crate::text::views(sources@),
                    root@,
                    match prefix { Some(p) => Some(p@), None => None },
                    m@,
                )
            },
            Err(e) => exists|i: int|
                #![trigger paths_of(files@)[i]]
                first_outside(paths_of(files@), root@, i) && e == Error::InvalidRelativePath {
                    path: files@[i].path,
                    root: e->InvalidRelativePath_root,
                } && e->InvalidRelativePath_root@ == root@,
        },
{
    let ghost pre = match prefix {
        Some(p) => Some(p@),
        None => None,
    };
    let mut m = FileManifest::new();
    let mut i: usize = 0;
    proof {
        assert(m@ =~= Seq::empty());
    }
    while i < files.len()
        invariant
            sources.len() == files.len(),
            0 <= i <= files.len(),
            m.wf(),
            pre == match prefix {
                Some(p) => Some(p@),
                None => None,
            },
            forall|j: int| 0 <= j < i ==> relative_spec(#[trigger] files@[j].path@, root@).is_some(),
            built_from(
                Seq::empty(),
                paths_of(files@).subrange(0, i as int),
                crate::text::views(sources@).subrange(0, i as int),
                root@,
                pre,
                m@,
            ),
        decreases files.len() - i,
    {
        let ghost before = m@;
        match relative_path(files[i].path.as_str(), root) {
            None => {
                proof {
                    assert(paths_of(files@)[i as int] == files@[i as int].path@);
                    assert forall|j: int| 0 <= j < i implies relative_spec(
                        #[trigger] paths_of(files@)[j],
                        root@,
                    ).is_some() by {
                        assert(paths_of(files@)[j] == files@[j].path@);
                    }
                }
                return Err(Error::InvalidRelativePath {
                    path: files[i].path.clone(),
                    root: String::from_str(root),
                });
            }
            Some(rel) => {
                let key = manifest_key(prefix, rel.as_str());
                m.insert(key, sources[i].clone());
                proof {
                    let ps = paths_of(files@).subrange(0, i + 1);
                    let ss = crate::text::views(sources@).subrange(0, i + 1);
                    assert(ps.drop_last() =~= paths_of(files@).subrange(0, i as int));
                    assert(ss.subrange(0, ps.len() - 1) =~= crate::text::views(sources@).subrange(0, i as int));
                    assert(ps.last() == files@[i as int].path@);
                    assert(ss[ps.len() - 1] == sources@[i as int]@);
                    assert(sorted_keys(before));
                    assert(built_from(Seq::empty(), ps.drop_last(), ss.subrange(0, ps.len() - 1), root@, pre, before));
                    assert(relative_spec(ps.last(), root@) == Some(rel@));
                    assert(key_spec(pre, rel@) == key@);
                    assert(entry_key(ps.last(), root@, pre)->Some_0 == key@);
                    assert(inserted(before, entry_key(ps.last(), root@, pre)->Some_0, ss[ps.len() - 1], m@));
                    assert(built_from(Seq::empty(), ps, ss, root@, pre, m@));
                }
                i = i + 1;
            }
        }
    }
    proof {
        assert(paths_of(files@).subrange(0, i as int) =~= paths_of(files@));
        assert(crate::text::views(sources@).subrange(0, i as int) =~= crate::text::views(sources@));
    }
    Ok(m)
}

/// Relies on `std::path::Path::canonicalize`: the absolute path, with
/// symbolic links resolved, of what is at `path` when it runs.
#[verifier::external_body]
fn canonical_path(path: &str) -> (r: Result<String, String>) {
    std::path::Path::new(path).canonicalize().map(|p| p.display().to_string()).map_err(|e| e.to_string())
}

/// The paths of a list that holds only source files.
pub open spec fn source_paths_of(items: Seq<Value>) -> Seq<Seq<char>> {
    items.map_values(|v: Value| match v {
        Value::Object(Object::SourceFile(f)) => f.path@,
        _ => Seq::empty(),
    })
}

/// The root that paths are taken relative to: the string given, else `cwd`.
pub open spec fn root_of(cwd: Seq<char>, relative_to: Value) -> Seq<char> {
    match relative_to {
        Value::Str(s) => s@,
        _ => cwd,
    }
}

/// The prefix given, if one was.
pub open spec fn prefix_of(prefix: Value) -> Option<Seq<char>> {
    match prefix {
        Value::Str(p) => Some(p@),
        _ => None,
    }
}

/// The check of the arguments of `file_manifest_from_files`: a list of
/// source files, and an optional string root and prefix.
pub open spec fn from_files_check(files: Value, relative_to: Value, prefix: Value) -> Option<crate::value::Mismatch> {
    or_else(
        match files {
            Value::List(_) => None,
            _ => Some(("files"@, ValueType::List, files.type_spec())),
        },
        or_else(
            opt_str_mismatch("relative_to"@, relative_to),
            or_else(
                opt_str_mismatch("prefix"@, prefix),
                crate::value::list_mismatch("files"@, ValueType::SourceFile, files),
            ),
        ),
    )
}

/// A manifest of `files` (source files), each keyed by its path relative to
/// `relative_to` (by default `cwd`) under `prefix`, and mapped to its
/// resolved absolute path. A file not under the root fails the whole build,
/// as does a path that cannot be resolved.
pub fn file_manifest_from_files(cwd: &str, files: &Value, relative_to: &Value, prefix: &Value) -> (r: Result<
    FileManifest,
    Error,
>)
    ensures
        from_files_check(*files, *relative_to, *prefix) is Some ==> reported(
            r,
            from_files_check(*files, *relative_to, *prefix),
        ),
        r is Ok ==> {
            &&& from_files_check(*files, *relative_to, *prefix) is None
            &&& r->Ok_0.wf()
            &&& exists|sources: Seq<Seq<char>>|
                built_from(
                    Seq::empty(),
                    source_paths_of(files->List_0@),
                    sources,
                    root_of(cwd@, *relative_to),
                    prefix_of(*prefix),
                    r->Ok_0@,
                )
        },
        from_files_check(*files, *relative_to, *prefix) is None && files->List_0@.len() == 0 ==> r is Ok
            && r->Ok_0@.len() == 0,
        r is Err ==> r->Err_0 is TypeMismatch || r->Err_0 is InvalidRelativePath || r->Err_0 is IoFailure,
{
    let items = match files {
        Value::List(items) => items,
        _ => {
            return Err(mismatch("files", ValueType::List, files.value_type()));
        },
    };
    let root = match crate::value::optional_str_arg("relative_to", relative_to)? {
        Some(s) => s,
        None => String::from_str(cwd),
    };
    let pre = crate::value::optional_str_arg("prefix", prefix)?;
    crate::value::required_list_arg("files", ValueType::SourceFile, files)?;
    let mut sources: Vec<SourceFile> = Vec::new();
    let mut resolved: Vec<String> = Vec::new();
    let mut i: usize = 0;
    while i < items.len()
        invariant
            0 <= i <= items.len(),
            *files == Value::List(*items),
            crate::value::is_list_of(*files, ValueType::SourceFile),
            from_files_check(*files, *relative_to, *prefix) is None,
            root@ == match relative_to {
                Value::Str(s) => s@,
                _ => cwd@,
            },
            match pre {
                Some(p) => *prefix is Str && p@ == prefix->Str_0@,
                None => !(*prefix is Str),
            },
            paths_of(sources@) =~= source_paths_of(items@.subrange(0, i as int)),
            resolved@.len() == i,
        decreases items.len() - i,
    {
        proof {
            assert(items@[i as int].type_spec() == ValueType::SourceFile);
            assert(source_paths_of(items@.subrange(0, i as int + 1)) =~= source_paths_of(items@.subrange(0, i as int)).push(
                source_paths_of(items@)[i as int],
            ));
        }
        match &items[i] {
            Value::Object(Object::SourceFile(f)) => {
                let c = match canonical_path(f.path.as_str()) {
                    Ok(c) => c,
                    Err(e) => return Err(crate::error::io_failure(e)),
                };
                let ghost prev = sources@;
                sources.push(SourceFile { path: f.path.clone() });
                resolved.push(c);
                proof {
                    assert(paths_of(sources@) =~= paths_of(prev).push(f.path@));
                }
            },
            _ => {},
        }
        i = i + 1;
    }
    proof {
        assert(items@.subrange(0, i as int) =~= items@);
    }
    let prefix_str: Option<&str> = match &pre {
        Some(p) => Some(p.as_str()),
        None => None,
    };
    let m = manifest_from_sources(&sources, &resolved, root.as_str(), prefix_str)?;
    proof {
        assert(paths_of(sources@) =~= source_paths_of(items@));
        let pre_v = prefix_of(*prefix);
        assert(pre_v == match prefix_str {
            Some(p) => Some(p@),
            None => None,
        });
        assert(built_from(Seq::empty(), source_paths_of(files->List_0@), crate::text::views(resolved@), root@, pre_v, m@));
        assert(root@ == root_of(cwd@, *relative_to));
        assert(built_from(Seq::empty(), source_paths_of(files->List_0@), crate::text::views(resolved@), root_of(cwd@, *relative_to), prefix_of(*prefix), m@));
        assert(m.wf());
        assert(from_files_check(*files, *relative_to, *prefix) is None);
    }
    Ok(m)
}

} // verus!
