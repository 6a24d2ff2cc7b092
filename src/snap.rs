//! Snap descriptors (the content of a `snapcraft.yaml`) and snapcraft
//! invocation steps, as built from script arguments.
use vstd::prelude::*;
use crate::error::Error;
use crate::manifest::FileManifest;
use crate::value::{
    Object, Value, ValueType, dict_mismatch, list_mismatch, opt_str_mismatch, optional_str_arg, or_else, reported,
    required_dict_arg, required_list_arg, required_str_arg, str_items, str_list_items, str_mismatch, type_mismatch,
};

verus! {

/// The string a value holds, where it is a string.
pub open spec fn opt_str(v: Value) -> Option<Seq<char>> {
    match v {
        Value::Str(s) => Some(s@),
        _ => None,
    }
}

/// The characters of an optional string.
pub open spec fn opt_view(o: Option<String>) -> Option<Seq<char>> {
    match o {
        Some(s) => Some(s@),
        None => None,
    }
}

/// An entry of `parts` in `snapcraft.yaml`; map-valued keys are lists of pairs.
#[derive(Debug, Clone)]
pub struct SnapPart {
    pub after: Option<Vec<String>>,
    pub build_environment: Option<Vec<(String, String)>>,
    pub build_packages: Option<Vec<String>>,
    pub build_snaps: Option<Vec<String>>,
    pub filesets: Option<Vec<String>>,
    pub organize: Option<Vec<(String, String)>>,
    pub override_build: Option<String>,
    pub override_prime: Option<String>,
    pub override_pull: Option<String>,
    pub override_stage: Option<String>,
    pub parse_info: Option<String>,
    pub plugin: Option<String>,
    pub prime: Option<Vec<String>>,
    pub source: Option<String>,
    pub source_branch: Option<String>,
    pub source_checksum: Option<String>,
    pub source_commit: Option<String>,
    pub source_depth: Option<u64>,
    pub source_subdir: Option<String>,
    pub source_tag: Option<String>,
    pub source_type: Option<String>,
    pub stage: Option<Vec<String>>,
    pub stage_packages: Option<Vec<String>>,
    pub stage_snaps: Option<Vec<String>>,
}

/// An entry of `apps` in `snapcraft.yaml`; map-valued keys are lists of pairs.
#[derive(Debug, Clone)]
pub struct SnapApp {
    pub adapter: Option<String>,
    pub command: Option<String>,
    pub command_chain: Option<Vec<String>>,
    pub common_id: Option<String>,
    pub daemon: Option<String>,
    pub desktop: Option<String>,
    pub environment: Option<Vec<(String, String)>>,
    pub listen_stream: Option<String>,
    pub plugs: Option<Vec<String>>,
    pub post_stop_command: Option<String>,
    pub restart_condition: Option<String>,
    pub slots: Option<Vec<String>>,
    pub socket: Option<Vec<(String, String)>>,
    pub socket_mode: Option<u64>,
    pub stop_command: Option<String>,
    pub stop_timeout: Option<String>,
}

/// A `snapcraft.yaml` file; map-valued keys are lists of pairs, in the order
/// given.
#[derive(Debug, Clone)]
pub struct Snap {
    pub adopt_info: Option<String>,
    pub assumes: Option<Vec<String>>,
    pub base: Option<String>,
    pub confinement: Option<String>,
    pub description: String,
    pub grade: Option<String>,
    pub icon: Option<String>,
    pub license: Option<String>,
    pub name: String,
    pub plugs: Option<Vec<(String, Vec<(String, String)>)>>,
    pub slots: Option<Vec<(String, Vec<(String, String)>)>>,
    pub summary: String,
    pub title: Option<String>,
    pub snap_type: Option<String>,
    pub version: String,
    pub apps: Vec<(String, SnapApp)>,
    pub parts: Vec<(String, SnapPart)>,
}

/// A step that runs `snapcraft` with `args` in `build_path`, after putting
/// the manifest's files and the descriptor there.
#[derive(Debug, Clone)]
pub struct Snapcraft {
    pub args: Vec<String>,
    pub snap: Snap,
    pub build_path: String,
    pub manifest: FileManifest,
}

/// The first argument of `snap_part` that fails its check, in the order
/// they are read.
pub open spec fn snap_part_check(after: Value, build_environment: Value, build_packages: Value, build_snaps: Value, filesets: Value, organize: Value, override_build: Value, override_prime: Value, override_pull: Value, override_stage: Value, parse_info: Value, plugin: Value, prime: Value, source: Value, source_branch: Value, source_checksum: Value, source_commit: Value, source_depth: Value, source_subdir: Value, source_tag: Value, source_type: Value, stage: Value, stage_packages: Value, stage_snaps: Value) -> Option<crate::value::Mismatch> {
    or_else(opt_str_mismatch("override_build"@, override_build), or_else(opt_str_mismatch("override_prime"@, override_prime), or_else(opt_str_mismatch("override_pull"@, override_pull), or_else(opt_str_mismatch("override_stage"@, override_stage), or_else(opt_str_mismatch("parse_info"@, parse_info), or_else(opt_str_mismatch("plugin"@, plugin), or_else(opt_str_mismatch("source"@, source), or_else(opt_str_mismatch("source_branch"@, source_branch), or_else(opt_str_mismatch("source_checksum"@, source_checksum), or_else(opt_str_mismatch("source_commit"@, source_commit), or_else(opt_str_mismatch("source_subdir"@, source_subdir), or_else(opt_str_mismatch("source_tag"@, source_tag), opt_str_mismatch("source_type"@, source_type)))))))))))))
}

/// A part: its string-valued keys from the arguments of the same name; the
/// keys that hold lists, maps or numbers are not taken from scripts and stay
/// unset.
pub fn snap_part(
    after: &Value,
    build_environment: &Value,
    build_packages: &Value,
    build_snaps: &Value,
    filesets: &Value,
    organize: &Value,
    override_build: &Value,
    override_prime: &Value,
    override_pull: &Value,
    override_stage: &Value,
    parse_info: &Value,
    plugin: &Value,
    prime: &Value,
    source: &Value,
    source_branch: &Value,
    source_checksum: &Value,
    source_commit: &Value,
    source_depth: &Value,
    source_subdir: &Value,
    source_tag: &Value,
    source_type: &Value,
    stage: &Value,
    stage_packages: &Value,
    stage_snaps: &Value,
) -> (r: Result<SnapPart, Error>)
    ensures
        reported(r, snap_part_check(*after, *build_environment, *build_packages, *build_snaps, *filesets, *organize, *override_build, *override_prime, *override_pull, *override_stage, *parse_info, *plugin, *prime, *source, *source_branch, *source_checksum, *source_commit, *source_depth, *source_subdir, *source_tag, *source_type, *stage, *stage_packages, *stage_snaps)),
        r is Ok ==> {
            &&& opt_view(r->Ok_0.override_build) == opt_str(*override_build)
            &&& opt_view(r->Ok_0.override_prime) == opt_str(*override_prime)
            &&& opt_view(r->Ok_0.override_pull) == opt_str(*override_pull)
            &&& opt_view(r->Ok_0.override_stage) == opt_str(*override_stage)
            &&& opt_view(r->Ok_0.parse_info) == opt_str(*parse_info)
            &&& opt_view(r->Ok_0.plugin) == opt_str(*plugin)
            &&& opt_view(r->Ok_0.source) == opt_str(*source)
            &&& opt_view(r->Ok_0.source_branch) == opt_str(*source_branch)
            &&& opt_view(r->Ok_0.source_checksum) == opt_str(*source_checksum)
            &&& opt_view(r->Ok_0.source_commit) == opt_str(*source_commit)
            &&& opt_view(r->Ok_0.source_subdir) == opt_str(*source_subdir)
            &&& opt_view(r->Ok_0.source_tag) == opt_str(*source_tag)
            &&& opt_view(r->Ok_0.source_type) == opt_str(*source_type)
            &&& r->Ok_0.after is None
            &&& r->Ok_0.build_environment is None
            &&& r->Ok_0.build_packages is None
            &&& r->Ok_0.build_snaps is None
            &&& r->Ok_0.filesets is None
            &&& r->Ok_0.organize is None
            &&& r->Ok_0.prime is None
            &&& r->Ok_0.source_depth is None
            &&& r->Ok_0.stage is None
            &&& r->Ok_0.stage_packages is None
            &&& r->Ok_0.stage_snaps is None
        },
{
    let override_build = optional_str_arg("override_build", override_build)?;
    let override_prime = optional_str_arg("override_prime", override_prime)?;
    let override_pull = optional_str_arg("override_pull", override_pull)?;
    let override_stage = optional_str_arg("override_stage", override_stage)?;
    let parse_info = optional_str_arg("parse_info", parse_info)?;
    let plugin = optional_str_arg("plugin", plugin)?;
    let source = optional_str_arg("source", source)?;
    let source_branch = optional_str_arg("source_branch", source_branch)?;
    let source_checksum = optional_str_arg("source_checksum", source_checksum)?;
    let source_commit = optional_str_arg("source_commit", source_commit)?;
    let source_subdir = optional_str_arg("source_subdir", source_subdir)?;
    let source_tag = optional_str_arg("source_tag", source_tag)?;
    let source_type = optional_str_arg("source_type", source_type)?;
    Ok(SnapPart {
        after: None,
        build_environment: None,
        build_packages: None,
        build_snaps: None,
        filesets: None,
        organize: None,
        override_build,
        override_prime,
        override_pull,
        override_stage,
        parse_info,
        plugin,
        prime: None,
        source,
        source_branch,
        source_checksum,
        source_commit,
        source_depth: None,
        source_subdir,
        source_tag,
        source_type,
        stage: None,
        stage_packages: None,
        stage_snaps: None,
    })
}

/// The first argument of `snap_app` that fails its check, in the order
/// they are read.
pub open spec fn snap_app_check(adapter: Value, command: Value, command_chain: Value, common_id: Value, daemon: Value, desktop: Value, environment: Value, listen_stream: Value, plugs: Value, post_stop_command: Value, restart_condition: Value, slots: Value, socket: Value, socket_module: Value, stop_command: Value, stop_timeout: Value) -> Option<crate::value::Mismatch> {
    or_else(opt_str_mismatch("adapter"@, adapter), or_else(opt_str_mismatch("command"@, command), or_else(opt_str_mismatch("common_id"@, common_id), or_else(opt_str_mismatch("daemon"@, daemon), or_else(opt_str_mismatch("desktop"@, desktop), or_else(opt_str_mismatch("listen_stream"@, listen_stream), or_else(opt_str_mismatch("post_stop_command"@, post_stop_command), or_else(opt_str_mismatch("restart_condition"@, restart_condition), or_else(opt_str_mismatch("stop_command"@, stop_command), opt_str_mismatch("stop_timeout"@, stop_timeout))))))))))
}

/// An app: its string-valued keys from the arguments of the same name; the
/// keys that hold lists, maps or numbers are not taken from scripts and stay
/// unset.
pub fn snap_app(
    adapter: &Value,
    command: &Value,
    command_chain: &Value,
    common_id: &Value,
    daemon: &Value,
    desktop: &Value,
    environment: &Value,
    listen_stream: &Value,
    plugs: &Value,
    post_stop_command: &Value,
    restart_condition: &Value,
    slots: &Value,
    socket: &Value,
    socket_module: &Value,
    stop_command: &Value,
    stop_timeout: &Value,
) -> (r: Result<SnapApp, Error>)
    ensures
        reported(r, snap_app_check(*adapter, *command, *command_chain, *common_id, *daemon, *desktop, *environment, *listen_stream, *plugs, *post_stop_command, *restart_condition, *slots, *socket, *socket_module, *stop_command, *stop_timeout)),
        r is Ok ==> {
            &&& opt_view(r->Ok_0.adapter) == opt_str(*adapter)
            &&& opt_view(r->Ok_0.command) == opt_str(*command)
            &&& opt_view(r->Ok_0.common_id) == opt_str(*common_id)
            &&& opt_view(r->Ok_0.daemon) == opt_str(*daemon)
            &&& opt_view(r->Ok_0.desktop) == opt_str(*desktop)
            &&& opt_view(r->Ok_0.listen_stream) == opt_str(*listen_stream)
            &&& opt_view(r->Ok_0.post_stop_command) == opt_str(*post_stop_command)
            &&& opt_view(r->Ok_0.restart_condition) == opt_str(*restart_condition)
            &&& opt_view(r->Ok_0.stop_command) == opt_str(*stop_command)
            &&& opt_view(r->Ok_0.stop_timeout) == opt_str(*stop_timeout)
            &&& r->Ok_0.command_chain is None
            &&& r->Ok_0.environment is None
            &&& r->Ok_0.plugs is None
            &&& r->Ok_0.slots is None
            &&& r->Ok_0.socket is None
            &&& r->Ok_0.socket_mode is None
        },
{
    let adapter = optional_str_arg("adapter", adapter)?;
    let command = optional_str_arg("command", command)?;
    let common_id = optional_str_arg("common_id", common_id)?;
    let daemon = optional_str_arg("daemon", daemon)?;
    let desktop = optional_str_arg("desktop", desktop)?;
    let listen_stream = optional_str_arg("listen_stream", listen_stream)?;
    let post_stop_command = optional_str_arg("post_stop_command", post_stop_command)?;
    let restart_condition = optional_str_arg("restart_condition", restart_condition)?;
    let stop_command = optional_str_arg("stop_command", stop_command)?;
    let stop_timeout = optional_str_arg("stop_timeout", stop_timeout)?;
    Ok(SnapApp {
        adapter,
        command,
        command_chain: None,
        common_id,
        daemon,
        desktop,
        environment: None,
        listen_stream,
        plugs: None,
        post_stop_command,
        restart_condition,
        slots: None,
        socket: None,
        socket_mode: None,
        stop_command,
        stop_timeout,
    })
}

/// What a snap descriptor says at its top level: name, description,
/// summary, version, its optional string keys in order, and the names of its
/// apps and parts.
pub open spec fn snap_top(s: Snap) -> (Seq<Seq<char>>, Seq<Option<Seq<char>>>, Seq<Seq<char>>, Seq<Seq<char>>) {
    (
        seq![s.name@, s.description@, s.summary@, s.version@],
        seq![
            opt_view(s.adopt_info),
            opt_view(s.base),
            opt_view(s.confinement),
            opt_view(s.grade),
            opt_view(s.icon),
            opt_view(s.license),
            opt_view(s.title),
            opt_view(s.snap_type),
        ],
        s.apps@.map_values(|e: (String, SnapApp)| e.0@),
        s.parts@.map_values(|e: (String, SnapPart)| e.0@),
    )
}

fn copy_opt(o: &Option<String>) -> (r: Option<String>)
    ensures
        opt_view(r) == opt_view(*o),
{
    match o {
        Some(s) => Some(s.clone()),
        None => None,
    }
}

impl Snap {
    /// A copy of the descriptor: its top level as stated, its apps and parts
    /// cloned under the same names.
    pub fn duplicate(&self) -> (r: Snap)
        ensures
            snap_top(r) == snap_top(*self),
    {
        let mut apps: Vec<(String, SnapApp)> = Vec::new();
        let mut i: usize = 0;
        while i < self.apps.len()
            invariant
                0 <= i <= self.apps.len(),
                apps@.map_values(|e: (String, SnapApp)| e.0@) =~= self.apps@.map_values(|e: (String, SnapApp)| e.0@).subrange(
                    0,
                    i as int,
                ),
            decreases self.apps.len() - i,
        {
            let ghost prev = apps@;
            let k = self.apps[i].0.clone();
            apps.push((k, self.apps[i].1.clone()));
            proof {
                assert(apps@.map_values(|e: (String, SnapApp)| e.0@) =~= prev.map_values(|e: (String, SnapApp)| e.0@).push(k@));
            }
            i = i + 1;
        }
        let mut parts: Vec<(String, SnapPart)> = Vec::new();
        let mut j: usize = 0;
        while j < self.parts.len()
            invariant
                0 <= j <= self.parts.len(),
                parts@.map_values(|e: (String, SnapPart)| e.0@) =~= self.parts@.map_values(|e: (String, SnapPart)| e.0@).subrange(
                    0,
                    j as int,
                ),
            decreases self.parts.len() - j,
        {
            let ghost prev = parts@;
            let k = self.parts[j].0.clone();
            parts.push((k, self.parts[j].1.clone()));
            proof {
                assert(parts@.map_values(|e: (String, SnapPart)| e.0@) =~= prev.map_values(|e: (String, SnapPart)| e.0@).push(k@));
            }
            j = j + 1;
        }
        let r = Snap {
            adopt_info: copy_opt(&self.adopt_info),
            assumes: self.assumes.clone(),
            base: copy_opt(&self.base),
            confinement: copy_opt(&self.confinement),
            description: self.description.clone(),
            grade: copy_opt(&self.grade),
            icon: copy_opt(&self.icon),
            license: copy_opt(&self.license),
            name: self.name.clone(),
            plugs: self.plugs.clone(),
            slots: self.slots.clone(),
            summary: self.summary.clone(),
            title: copy_opt(&self.title),
            snap_type: copy_opt(&self.snap_type),
            version: self.version.clone(),
            apps,
            parts,
        };
        proof {
            assert(snap_top(r).0 =~= snap_top(*self).0);
            assert(snap_top(r).1 =~= snap_top(*self).1);
        }
        r
    }
}

impl Snapcraft {
    /// A copy of the step, with the same arguments, directory and manifest
    /// and a copy of its descriptor.
    pub fn duplicate(&self) -> (r: Snapcraft)
        ensures
            crate::text::views(r.args@) == crate::text::views(self.args@),
            r.build_path@ == self.build_path@,
            r.manifest@ == self.manifest@,
            snap_top(r.snap) == snap_top(self.snap),
    {
        let mut args: Vec<String> = Vec::new();
        let mut i: usize = 0;
        while i < self.args.len()
            invariant
                0 <= i <= self.args.len(),
                crate::text::views(args@) =~= crate::text::views(self.args@).subrange(0, i as int),
            decreases self.args.len() - i,
        {
            let ghost prev = args@;
            let a = self.args[i].clone();
            args.push(a);
            proof {
                assert(crate::text::views(args@) =~= crate::text::views(prev).push(a@));
            }
            i = i + 1;
        }
        Snapcraft {
            args,
            snap: self.snap.duplicate(),
            build_path: self.build_path.clone(),
            manifest: self.manifest.snapshot(),
        }
    }
}

/// The first argument of `snap` that fails its check, in the order they are
/// read: the two maps first, then the keys of the descriptor in order.
pub open spec fn snap_check(
    name: Value,
    description: Value,
    summary: Value,
    version: Value,
    adopt_info: Value,
    base: Value,
    confinement: Value,
    grade: Value,
    icon: Value,
    license: Value,
    title: Value,
    snap_type: Value,
    parts: Value,
    apps: Value,
) -> Option<crate::value::Mismatch> {
    or_else(dict_mismatch("apps"@, ValueType::String, ValueType::SnapApp, apps), or_else(
        dict_mismatch("parts"@, ValueType::String, ValueType::SnapPart, parts),
        or_else(opt_str_mismatch("adopt_info"@, adopt_info), or_else(opt_str_mismatch("base"@, base), or_else(
            opt_str_mismatch("confinement"@, confinement),
            or_else(str_mismatch("description"@, description), or_else(opt_str_mismatch("grade"@, grade), or_else(
                opt_str_mismatch("icon"@, icon),
                or_else(opt_str_mismatch("license"@, license), or_else(str_mismatch("name"@, name), or_else(
                    str_mismatch("summary"@, summary),
                    or_else(opt_str_mismatch("title"@, title), or_else(
                        opt_str_mismatch("snap_type"@, snap_type),
                        str_mismatch("version"@, version),
                    )),
                ))),
            ))),
        ))),
    ))
}

/// The keys of a dict whose keys are strings.
pub open spec fn dict_keys(entries: Seq<(Value, Value)>) -> Seq<Seq<char>> {
    entries.map_values(|e: (Value, Value)| match e.0 {
        Value::Str(s) => s@,
        _ => Seq::empty(),
    })
}

/// The apps of a dict from names to apps, in order.
fn collect_apps(apps: &Value) -> (r: Vec<(String, SnapApp)>)
    requires
        crate::value::is_dict_of(*apps, ValueType::String, ValueType::SnapApp),
    ensures
        r@.map_values(|e: (String, SnapApp)| e.0@) == dict_keys(apps->Dict_0@),
{
    let mut r: Vec<(String, SnapApp)> = Vec::new();
    match apps {
        Value::Dict(entries) => {
            let mut i: usize = 0;
            while i < entries.len()
                invariant
                    0 <= i <= entries.len(),
                    *apps == Value::Dict(*entries),
                    crate::value::is_dict_of(*apps, ValueType::String, ValueType::SnapApp),
                    r@.map_values(|e: (String, SnapApp)| e.0@) =~= dict_keys(entries@.subrange(0, i as int)),
                decreases entries.len() - i,
            {
                proof {
                    assert(dict_keys(entries@.subrange(0, i as int + 1)) =~= dict_keys(entries@.subrange(0, i as int)).push(
                        dict_keys(entries@)[i as int],
                    ));
                    assert(entries@[i as int].0.type_spec() == ValueType::String);
                    assert(entries@[i as int].1.type_spec() == ValueType::SnapApp);
                }
                match (&entries[i].0, &entries[i].1) {
                    (Value::Str(k), Value::Object(Object::SnapApp(a))) => {
                        let ghost prev = r@;
                        let key = k.clone();
                        r.push((key, a.clone()));
                        proof {
                            assert(r@.map_values(|e: (String, SnapApp)| e.0@) =~= prev.map_values(
                                |e: (String, SnapApp)| e.0@,
                            ).push(key@));
                        }
                    },
                    _ => {},
                }
                i = i + 1;
            }
            proof {
                assert(entries@.subrange(0, i as int) =~= entries@);
            }
        },
        _ => {},
    }
    r
}

/// The parts of a dict from names to parts, in order.
fn collect_parts(parts: &Value) -> (r: Vec<(String, SnapPart)>)
    requires
        crate::value::is_dict_of(*parts, ValueType::String, ValueType::SnapPart),
    ensures
        r@.map_values(|e: (String, SnapPart)| e.0@) == dict_keys(parts->Dict_0@),
{
    let mut r: Vec<(String, SnapPart)> = Vec::new();
    match parts {
        Value::Dict(entries) => {
            let mut i: usize = 0;
            while i < entries.len()
                invariant
                    0 <= i <= entries.len(),
                    *parts == Value::Dict(*entries),
                    crate::value::is_dict_of(*parts, ValueType::String, ValueType::SnapPart),
                    r@.map_values(|e: (String, SnapPart)| e.0@) =~= dict_keys(entries@.subrange(0, i as int)),
                decreases entries.len() - i,
            {
                proof {
                    assert(dict_keys(entries@.subrange(0, i as int + 1)) =~= dict_keys(entries@.subrange(0, i as int)).push(
                        dict_keys(entries@)[i as int],
                    ));
                    assert(entries@[i as int].0.type_spec() == ValueType::String);
                    assert(entries@[i as int].1.type_spec() == ValueType::SnapPart);
                }
                match (&entries[i].0, &entries[i].1) {
                    (Value::Str(k), Value::Object(Object::SnapPart(a))) => {
                        let ghost prev = r@;
                        let key = k.clone();
                        r.push((key, a.clone()));
                        proof {
                            assert(r@.map_values(|e: (String, SnapPart)| e.0@) =~= prev.map_values(
                                |e: (String, SnapPart)| e.0@,
                            ).push(key@));
                        }
                    },
                    _ => {},
                }
                i = i + 1;
            }
            proof {
                assert(entries@.subrange(0, i as int) =~= entries@);
            }
        },
        _ => {},
    }
    r
}

/// A snap descriptor: `name`, `description`, `summary` and `version` are
/// required strings; `apps` and `parts` are required dicts from names to
/// apps and parts; the other string keys are optional. `assumes`, `plugs`
/// and `slots` are not taken from scripts and stay unset.
pub fn snap(
    name: &Value,
    description: &Value,
    summary: &Value,
    version: &Value,
    adopt_info: &Value,
    assumes: &Value,
    base: &Value,
    confinement: &Value,
    grade: &Value,
    icon: &Value,
    license: &Value,
    plugs: &Value,
    slots: &Value,
    title: &Value,
    snap_type: &Value,
    parts: &Value,
    apps: &Value,
) -> (r: Result<Snap, Error>)
    ensures
        reported(
            r,
            snap_check(
                *name,
                *description,
                *summary,
                *version,
                *adopt_info,
                *base,
                *confinement,
                *grade,
                *icon,
                *license,
                *title,
                *snap_type,
                *parts,
                *apps,
            ),
        ),
        r is Ok ==> {
            &&& r->Ok_0.name@ == name->Str_0@
            &&& r->Ok_0.description@ == description->Str_0@
            &&& r->Ok_0.summary@ == summary->Str_0@
            &&& r->Ok_0.version@ == version->Str_0@
            &&& opt_view(r->Ok_0.adopt_info) == opt_str(*adopt_info)
            &&& opt_view(r->Ok_0.base) == opt_str(*base)
            &&& opt_view(r->Ok_0.confinement) == opt_str(*confinement)
            &&& opt_view(r->Ok_0.grade) == opt_str(*grade)
            &&& opt_view(r->Ok_0.icon) == opt_str(*icon)
            &&& opt_view(r->Ok_0.license) == opt_str(*license)
            &&& opt_view(r->Ok_0.title) == opt_str(*title)
            &&& opt_view(r->Ok_0.snap_type) == opt_str(*snap_type)
            &&& r->Ok_0.assumes is None
            &&& r->Ok_0.plugs is None
            &&& r->Ok_0.slots is None
            &&& r->Ok_0.apps@.map_values(|e: (String, SnapApp)| e.0@) == dict_keys(apps->Dict_0@)
            &&& r->Ok_0.parts@.map_values(|e: (String, SnapPart)| e.0@) == dict_keys(parts->Dict_0@)
        },
{
    required_dict_arg("apps", ValueType::String, ValueType::SnapApp, apps)?;
    required_dict_arg("parts", ValueType::String, ValueType::SnapPart, parts)?;
    let adopt_info = optional_str_arg("adopt_info", adopt_info)?;
    let base = optional_str_arg("base", base)?;
    let confinement = optional_str_arg("confinement", confinement)?;
    let description = required_str_arg("description", description)?;
    let grade = optional_str_arg("grade", grade)?;
    let icon = optional_str_arg("icon", icon)?;
    let license = optional_str_arg("license", license)?;
    let name = required_str_arg("name", name)?;
    let summary = required_str_arg("summary", summary)?;
    let title = optional_str_arg("title", title)?;
    let snap_type = optional_str_arg("snap_type", snap_type)?;
    let version = required_str_arg("version", version)?;
    let raw_apps = collect_apps(apps);
    let raw_parts = collect_parts(parts);
    Ok(Snap {
        adopt_info,
        assumes: None,
        base,
        confinement,
        description,
        grade,
        icon,
        license,
        name,
        plugs: None,
        slots: None,
        summary,
        title,
        snap_type,
        version,
        apps: raw_apps,
        parts: raw_parts,
    })
}

/// The first argument of `snapcraft` that fails its check, in order.
pub open spec fn snapcraft_check(args: Value, snap: Value, build_path: Value, manifest: Value) -> Option<
    crate::value::Mismatch,
> {
    or_else(list_mismatch("args"@, ValueType::String, args), or_else(
        type_mismatch("snap"@, ValueType::Snap, snap),
        or_else(str_mismatch("build_path"@, build_path), type_mismatch("manifest"@, ValueType::FileManifest, manifest)),
    ))
}

/// A snapcraft step: the arguments for `snapcraft`, a descriptor, the
/// directory to build in, and a copy of the manifest of its files.
pub fn snapcraft(args: &Value, snap: &Value, build_path: &Value, manifest: &Value) -> (r: Result<Snapcraft, Error>)
    ensures
        reported(r, snapcraft_check(*args, *snap, *build_path, *manifest)),
        r is Ok ==> {
            &&& crate::text::views(r->Ok_0.args@) == str_items(args->List_0@)
            &&& r->Ok_0.build_path@ == build_path->Str_0@
            &&& r->Ok_0.manifest@ == manifest->Object_0->FileManifest_0@
            &&& snap_top(r->Ok_0.snap) == snap_top(snap->Object_0->Snap_0)
        },
{
    required_list_arg("args", ValueType::String, args)?;
    crate::value::required_type_arg("snap", ValueType::Snap, snap)?;
    let path = required_str_arg("build_path", build_path)?;
    crate::value::required_type_arg("manifest", ValueType::FileManifest, manifest)?;
    let raw_args = str_list_items(args);
    match (snap, manifest) {
        (Value::Object(Object::Snap(s)), Value::Object(Object::FileManifest(m))) => Ok(Snapcraft {
            args: raw_args,
            snap: s.duplicate(),
            build_path: path,
            manifest: m.snapshot(),
        }),
        _ => Err(crate::error::mismatch("manifest", ValueType::FileManifest, manifest.value_type())),
    }
}

} // verus!
