//! Tar archive steps, pipelines, the pipeline registry, and the execution of
//! pipelines step by step.
use vstd::prelude::*;
use crate::archive::{TarMember, tar_append, tar_finish, tar_new, tar_path_ok, tar_stream};
use crate::deb::{FileData, data_mode};
use crate::manifest::Entries;
use crate::debian::DebianDebArchive;
use crate::error::Error;
use crate::manifest::FileManifest;
use crate::snap::Snapcraft;
use crate::value::{Object, Value, ValueType, or_else, reported, str_mismatch, type_mismatch};

verus! {

/// A step that writes the files of a manifest into a tar archive.
#[derive(Debug, Clone)]
pub struct TarArchive {
    /// File name of the archive, under the pipeline's output directory.
    pub dest_name: String,
    /// The files to archive, keyed by their path in the archive.
    pub file_manifest: FileManifest,
}

/// One packaging action of a pipeline.
#[derive(Debug, Clone)]
pub enum Step {
    TarArchive(TarArchive),
    Snapcraft(Snapcraft),
    DebArchive(DebianDebArchive),
}

/// A named, ordered series of steps, with the directory its artifacts go to.
#[derive(Debug, Clone)]
pub struct Pipeline {
    pub name: String,
    pub dist_path: String,
    pub steps: Vec<Step>,
}

impl TarArchive {
    /// An independent copy of the step.
    pub fn duplicate(&self) -> (r: TarArchive)
        ensures
            r.dest_name@ == self.dest_name@,
            r.file_manifest@ == self.file_manifest@,
    {
        TarArchive { dest_name: self.dest_name.clone(), file_manifest: self.file_manifest.snapshot() }
    }

    /// The members of the archive in order: each manifest entry's archive
    /// path and source path, in key order.
    pub fn members(&self) -> (r: Vec<(String, String)>)
        ensures
            r@.map_values(|e: (String, String)| (e.0@, e.1@)) == self.file_manifest@,
    {
        self.file_manifest.snapshot().files
    }

    /// The bytes of the archive: a tar stream with one member per manifest
    /// entry, in key order, stored under its key with the content and mode
    /// of `data[i]` and the time `mtime`. It depends on nothing else.
    pub fn write_tar(&self, data: &Vec<FileData>, mtime: u64) -> (r: Result<Vec<u8>, Error>)
        requires
            data@.len() == self.file_manifest@.len(),
        ensures
            keys_ok(self.file_manifest@) ==> r is Ok,
            r is Ok ==> r->Ok_0@ == tar_stream(archive_members(self.file_manifest@, data@, mtime)),
            r is Err ==> r->Err_0 is IoFailure,
    {
        let mut b = tar_new();
        let mut i: usize = 0;
        while i < self.file_manifest.files.len()
            invariant
                data@.len() == self.file_manifest@.len(),
                0 <= i <= self.file_manifest@.len(),
                crate::archive::tar_members(b) == archive_members(self.file_manifest@.subrange(0, i as int), data@, mtime),
            decreases self.file_manifest.files.len() - i,
        {
            proof {
                assert(self.file_manifest@.subrange(0, i as int + 1).drop_last() =~= self.file_manifest@.subrange(0, i as int));
            }
            let mode: u32 = if data[i].executable {
                0o755
            } else {
                0o644
            };
            let key = self.file_manifest.files[i].0.as_str();
            match tar_append(&mut b, key, mode, mtime, data[i].content.as_slice()) {
                Ok(()) => {},
                Err(e) => {
                    proof {
                        assert(key@ == self.file_manifest@[i as int].0);
                        assert(!keys_ok(self.file_manifest@));
                    }
                    return Err(crate::error::io_failure(e));
                },
            }
            i = i + 1;
        }
        proof {
            assert(self.file_manifest@.subrange(0, i as int) =~= self.file_manifest@);
        }
        match tar_finish(b) {
            Ok(v) => Ok(v),
            Err(e) => Err(crate::error::io_failure(e)),
        }
    }
}

/// Every key of the manifest is a path tar takes.
pub open spec fn keys_ok(entries: Entries) -> bool {
    forall|i: int| 0 <= i < entries.len() ==> tar_path_ok((#[trigger] entries[i]).0)
}

/// The members of a tar archive step: each entry under its key, in key
/// order, with its file's content and mode and the time `mtime`.
pub open spec fn archive_members(entries: Entries, data: Seq<FileData>, mtime: u64) -> Seq<TarMember>
    decreases entries.len(),
{
    if entries.len() == 0 {
        Seq::empty()
    } else {
        let n = entries.len() - 1;
        archive_members(entries.drop_last(), data, mtime).push(
            (entries[n].0, data_mode(data[n].executable), mtime, data[n].content@),
        )
    }
}

/// Two archives of equal manifests and equal file data and time have the
/// same bytes.
pub proof fn lemma_tar_reproducible(
    entries: Entries,
    data_a: Seq<FileData>,
    data_b: Seq<FileData>,
    mtime: u64,
)
    requires
        data_a.len() == entries.len(),
        data_a.len() == data_b.len(),
        forall|i: int| 0 <= i < data_a.len() ==> (#[trigger] data_a[i]).content@ == data_b[i].content@
            && data_a[i].executable == data_b[i].executable,
    ensures
        tar_stream(archive_members(entries, data_a, mtime)) == tar_stream(archive_members(entries, data_b, mtime)),
{
    lemma_members_same(entries, data_a, data_b, mtime);
}

proof fn lemma_members_same(entries: Entries, a: Seq<FileData>, b: Seq<FileData>, mtime: u64)
    requires
        a.len() == b.len(),
        entries.len() <= a.len(),
        forall|i: int| 0 <= i < a.len() ==> (#[trigger] a[i]).content@ == b[i].content@ && a[i].executable
            == b[i].executable,
    ensures
        archive_members(entries, a, mtime) == archive_members(entries, b, mtime),
    decreases entries.len(),
{
    if entries.len() > 0 {
        lemma_members_same(entries.drop_last(), a, b, mtime);
        let n = entries.len() - 1;
        assert(a[n].content@ == b[n].content@);
    }
}

/// A tar archive step named `filename` over a copy of `manifest`.
pub fn tar_archive(filename: &Value, manifest: &Value) -> (r: Result<TarArchive, Error>)
    ensures
        reported(
            r,
            or_else(str_mismatch("filename"@, *filename), type_mismatch("manifest"@, ValueType::FileManifest, *manifest)),
        ),
        r is Ok ==> r->Ok_0.dest_name@ == filename->Str_0@ && r->Ok_0.file_manifest@
            == manifest->Object_0->FileManifest_0@,
{
    let name = crate::value::required_str_arg("filename", filename)?;
    crate::value::required_type_arg("manifest", ValueType::FileManifest, manifest)?;
    match manifest {
        Value::Object(Object::FileManifest(m)) => Ok(TarArchive { dest_name: name, file_manifest: m.snapshot() }),
        _ => Err(crate::error::mismatch("manifest", ValueType::FileManifest, manifest.value_type())),
    }
}

/// The step a value stands for, where it is one.
pub open spec fn step_of(v: Value) -> Option<Step> {
    match v {
        Value::Object(Object::TarArchive(t)) => Some(Step::TarArchive(t)),
        Value::Object(Object::Snapcraft(s)) => Some(Step::Snapcraft(s)),
        Value::Object(Object::DebianDebArchive(d)) => Some(Step::DebArchive(d)),
        _ => None,
    }
}

/// The first position from `i` on that holds no step (the length where
/// there is none).
pub open spec fn find_non_step(items: Seq<Value>, i: int) -> int
    decreases items.len() - i,
{
    if i < 0 || i >= items.len() {
        items.len() as int
    } else if step_of(items[i]) is None {
        i
    } else {
        find_non_step(items, i + 1)
    }
}

/// `step` is a copy of the step object `v`.
pub open spec fn copies(v: Value, step: Step) -> bool {
    match (v, step) {
        (Value::Object(Object::TarArchive(a)), Step::TarArchive(b)) => a.dest_name@ == b.dest_name@
            && a.file_manifest@ == b.file_manifest@,
        (Value::Object(Object::Snapcraft(a)), Step::Snapcraft(b)) => crate::text::views(a.args@) == crate::text::views(
            b.args@,
        ) && a.build_path@ == b.build_path@ && a.manifest@ == b.manifest@ && crate::snap::snap_top(a.snap)
            == crate::snap::snap_top(b.snap),
        (Value::Object(Object::DebianDebArchive(a)), Step::DebArchive(b)) => a.files@ == b.files@
            && a.control_file.paragraph@ == b.control_file.paragraph@,
        _ => false,
    }
}

/// The check of a pipeline's arguments: a string name, and none or a list
/// of steps.
pub open spec fn pipeline_check(name: Value, steps: Value) -> Option<crate::value::Mismatch> {
    or_else(
        str_mismatch("name"@, name),
        match steps {
            Value::NoneValue => None,
            Value::List(items) => {
                let k = find_non_step(items@, 0);
                if k < items@.len() {
                    Some(("steps"@, ValueType::TarArchive, items@[k].type_spec()))
                } else {
                    None
                }
            },
            _ => Some(("steps"@, ValueType::List, steps.type_spec())),
        },
    )
}

/// A pipeline named `name` whose steps are copies of the step objects of
/// `steps` (none for no steps), writing its artifacts under `dist_path`. An
/// element that is not a step is reported as wanting a tar archive, the
/// first kind of step.
pub fn pipeline(dist_path: &str, name: &Value, steps: &Value) -> (r: Result<Pipeline, Error>)
    ensures
        reported(r, pipeline_check(*name, *steps)),
        r is Ok ==> {
            &&& r->Ok_0.name@ == name->Str_0@
            &&& r->Ok_0.dist_path@ == dist_path@
            &&& r->Ok_0.steps@.len() == match steps {
                Value::List(items) => items@.len(),
                _ => 0,
            }
            &&& forall|i: int| 0 <= i < r->Ok_0.steps@.len() ==> copies(steps->List_0@[i], #[trigger] r->Ok_0.steps@[i])
        },
{
    let n = crate::value::required_str_arg("name", name)?;
    let mut res: Vec<Step> = Vec::new();
    match steps {
        Value::NoneValue => {},
        Value::List(items) => {
            let mut i: usize = 0;
            while i < items.len()
                invariant
                    0 <= i <= items.len(),
                    *steps == Value::List(*items),
                    *name is Str,
                    find_non_step(items@, 0) == find_non_step(items@, i as int),
                    res@.len() == i,
                    forall|j: int| 0 <= j < i ==> copies(items@[j], #[trigger] res@[j]),
                decreases items.len() - i,
            {
                match &items[i] {
                    Value::Object(Object::TarArchive(t)) => {
                        res.push(Step::TarArchive(t.duplicate()));
                    },
                    Value::Object(Object::Snapcraft(c)) => {
                        res.push(Step::Snapcraft(c.duplicate()));
                    },
                    Value::Object(Object::DebianDebArchive(d)) => {
                        res.push(Step::DebArchive(d.duplicate()));
                    },
                    other => {
                        proof {
                            assert(step_of(items@[i as int]) is None);
                            assert(find_non_step(items@, i as int) == i);
                            assert(other.type_spec() == items@[i as int].type_spec());
                        }
                        return Err(crate::error::mismatch("steps", ValueType::TarArchive, other.value_type()));
                    },
                }
                i = i + 1;
            }
        },
        _ => {
            return Err(crate::error::mismatch("steps", ValueType::List, steps.value_type()));
        },
    }
    Ok(Pipeline { name: n, dist_path: String::from_str(dist_path), steps: res })
}

/// The pipelines declared so far, in declaration order. Declaring only
/// appends; `freeze` ends declaration.
pub struct PipelineRegistry {
    pub pipelines: Vec<Pipeline>,
}

/// The pipelines of a finished evaluation, read-only, ready to execute.
pub struct FrozenRegistry {
    pub pipelines: Vec<Pipeline>,
}

impl PipelineRegistry {
    /// A registry with no pipelines.
    pub fn new() -> (r: PipelineRegistry)
        ensures
            r.pipelines@.len() == 0,
    {
        PipelineRegistry { pipelines: Vec::new() }
    }

    /// Declares one more pipeline, after the others.
    pub fn add(&mut self, p: Pipeline)
        ensures
            final(self).pipelines@ == old(self).pipelines@.push(p),
    {
        self.pipelines.push(p);
    }

    /// Ends declaration: the pipelines, in order, from now on read-only.
    pub fn freeze(self) -> (r: FrozenRegistry)
        ensures
            r.pipelines@ == self.pipelines@,
    {
        FrozenRegistry { pipelines: self.pipelines }
    }
}

/// The first position from `i` on whose pipeline is named `name` (the
/// length where there is none).
pub open spec fn first_named(ps: Seq<Pipeline>, name: Seq<char>, i: int) -> int
    decreases ps.len() - i,
{
    if i < 0 || i >= ps.len() {
        ps.len() as int
    } else if ps[i].name@ == name {
        i
    } else {
        first_named(ps, name, i + 1)
    }
}

/// The steps of pipeline `p`, which has `n` of them, in order.
pub open spec fn steps_of(p: usize, n: nat) -> Seq<(usize, usize)> {
    Seq::new(n, |s: int| (p, s as usize))
}

/// Every step of the pipelines of `plan`, pipeline after pipeline, each in
/// its declared order.
pub open spec fn schedule_spec(ps: Seq<Pipeline>, plan: Seq<usize>) -> Seq<(usize, usize)>
    decreases plan.len(),
{
    if plan.len() == 0 {
        Seq::empty()
    } else {
        schedule_spec(ps, plan.drop_last()) + steps_of(plan.last(), ps[plan.last() as int].steps@.len())
    }
}

impl FrozenRegistry {
    /// Every pipeline, in declaration order.
    pub fn plan_all(&self) -> (r: Vec<usize>)
        ensures
            r@ == Seq::new(self.pipelines@.len(), |i: int| i as usize),
    {
        let mut r: Vec<usize> = Vec::new();
        let mut i: usize = 0;
        while i < self.pipelines.len()
            invariant
                0 <= i <= self.pipelines.len(),
                r@ =~= Seq::new(i as nat, |j: int| j as usize),
            decreases self.pipelines.len() - i,
        {
            r.push(i);
            i = i + 1;
        }
        r
    }

    /// The first pipeline named `name`, in declaration order; a later one of
    /// the same name is never chosen.
    pub fn plan_named(&self, name: &str) -> (r: Result<Vec<usize>, Error>)
        ensures
            first_named(self.pipelines@, name@, 0) < self.pipelines@.len() ==> r is Ok && r->Ok_0@ == seq![
                first_named(self.pipelines@, name@, 0) as usize,
            ],
            first_named(self.pipelines@, name@, 0) == self.pipelines@.len() ==> r is Err && r->Err_0 is NotFound
                && r->Err_0->NotFound_name@ == name@,
    {
        let mut i: usize = 0;
        while i < self.pipelines.len()
            invariant
                0 <= i <= self.pipelines.len(),
                first_named(self.pipelines@, name@, 0) == first_named(self.pipelines@, name@, i as int),
            decreases self.pipelines.len() - i,
        {
            if crate::text::str_equal(self.pipelines[i].name.as_str(), name) {
                let mut r: Vec<usize> = Vec::new();
                r.push(i);
                proof {
                    assert(r@ =~= seq![i]);
                }
                return Ok(r);
            }
            i = i + 1;
        }
        Err(Error::NotFound { name: String::from_str(name) })
    }
}

/// What the executor of a pipeline run does next.
#[derive(Debug, Clone, Copy, PartialEq, Eq, Structural)]
pub enum Action {
    /// Run step `step` of pipeline `pipeline`, then report how it went.
    RunStep { pipeline: usize, step: usize },
    /// Every step ran.
    Finished,
    /// A step failed; nothing more runs.
    Failed,
}

/// A run of the pipelines of a plan, one step at a time.
pub struct Execution {
    /// Every step to run, in order, as (pipeline, step) positions.
    pub schedule: Vec<(usize, usize)>,
    /// How many steps ran successfully.
    pub position: usize,
    /// The failure that ended the run, if one did.
    pub failure: Option<Error>,
}

impl Execution {
    /// A run of the steps of `plan`'s pipelines, pipeline after pipeline.
    pub fn new(registry: &FrozenRegistry, plan: &Vec<usize>) -> (r: Execution)
        requires
            forall|i: int| 0 <= i < plan@.len() ==> (#[trigger] plan@[i]) < registry.pipelines@.len(),
        ensures
            r.schedule@ == schedule_spec(registry.pipelines@, plan@),
            r.position == 0,
            r.failure is None,
    {
        let mut schedule: Vec<(usize, usize)> = Vec::new();
        let mut i: usize = 0;
        while i < plan.len()
            invariant
                0 <= i <= plan.len(),
                forall|k: int| 0 <= k < plan@.len() ==> (#[trigger] plan@[k]) < registry.pipelines@.len(),
                schedule@ == schedule_spec(registry.pipelines@, plan@.subrange(0, i as int)),
            decreases plan.len() - i,
        {
            proof {
                assert(plan@.subrange(0, i as int + 1).drop_last() =~= plan@.subrange(0, i as int));
            }
            let p = plan[i];
            let n = registry.pipelines[p].steps.len();
            let ghost base = schedule@;
            let mut s: usize = 0;
            while s < n
                invariant
                    0 <= s <= n,
                    schedule@ =~= base + steps_of(p, s as nat),
                decreases n - s,
            {
                schedule.push((p, s));
                s = s + 1;
            }
            i = i + 1;
        }
        proof {
            assert(plan@.subrange(0, i as int) =~= plan@);
        }
        Execution { schedule, position: 0, failure: None }
    }

    /// What to do next: nothing after a failure, else the next step, or
    /// nothing once every step ran.
    pub fn next_action(&self) -> (r: Action)
        ensures
            self.failure is Some ==> r == Action::Failed,
            self.failure is None && self.position < self.schedule@.len() ==> r == (Action::RunStep {
                pipeline: self.schedule@[self.position as int].0,
                step: self.schedule@[self.position as int].1,
            }),
            self.failure is None && self.position >= self.schedule@.len() ==> r == Action::Finished,
    {
        if self.failure.is_some() {
            Action::Failed
        } else if self.position < self.schedule.len() {
            let (p, s) = self.schedule[self.position];
            Action::RunStep { pipeline: p, step: s }
        } else {
            Action::Finished
        }
    }

    /// Records how the step that `next_action` named went: on success the
    /// run moves on; on failure it stops, with the error carrying the
    /// pipeline's name.
    pub fn step_done(&mut self, registry: &FrozenRegistry, outcome: Result<(), String>)
        requires
            old(self).failure is None,
            old(self).position < old(self).schedule@.len(),
            old(self).schedule@[old(self).position as int].0 < registry.pipelines@.len(),
        ensures
            final(self).schedule@ == old(self).schedule@,
            outcome is Ok ==> final(self).position == old(self).position + 1 && final(self).failure is None,
            outcome is Err ==> {
                let (p, s) = old(self).schedule@[old(self).position as int];
                &&& final(self).position == old(self).position
                &&& final(self).failure matches Some(Error::PipelineFailed { pipeline, step, message })
                &&& pipeline@ == registry.pipelines@[p as int].name@
                &&& step == s
                &&& message@ == outcome->Err_0@
            },
    {
        let n = self.schedule.len();
        match outcome {
            Ok(()) => {
                assert(self.position < n);
                self.position = self.position + 1;
            },
            Err(m) => {
                let (p, s) = self.schedule[self.position];
                self.failure = Some(Error::PipelineFailed {
                    pipeline: registry.pipelines[p].name.clone(),
                    step: s,
                    message: m,
                });
            },
        }
    }

    /// How the run ended: the failure, if one ended it.
    pub fn outcome(self) -> (r: Result<(), Error>)
        ensures
            self.failure is None ==> r is Ok,
            self.failure is Some ==> r == Err::<(), Error>(self.failure->Some_0),
    {
        match self.failure {
            None => Ok(()),
            Some(e) => Err(e),
        }
    }
}

proof fn lemma_first_named_bounds(ps: Seq<Pipeline>, name: Seq<char>, i: int)
    requires
        0 <= i,
    ensures
        0 <= first_named(ps, name, i) <= ps.len(),
        i <= ps.len() ==> i <= first_named(ps, name, i),
    decreases ps.len() - i,
{
    if i < ps.len() && ps[i].name@ != name {
        lemma_first_named_bounds(ps, name, i + 1);
    }
}

/// Running a pipeline by name runs the steps of the first pipeline of that
/// name and of no other pipeline.
pub proof fn lemma_named_runs_first_only(ps: Seq<Pipeline>, name: Seq<char>)
    requires
        ps.len() <= usize::MAX,
        first_named(ps, name, 0) < ps.len(),
    ensures
        ({
            let k = first_named(ps, name, 0);
            let sched = schedule_spec(ps, seq![k as usize]);
            &&& sched == steps_of(k as usize, ps[k].steps@.len())
            &&& forall|i: int| 0 <= i < sched.len() ==> (#[trigger] sched[i]).0 == k as usize
        }),
{
    let k = first_named(ps, name, 0);
    lemma_first_named_bounds(ps, name, 0);
    let plan = seq![k as usize];
    assert(plan.drop_last() =~= Seq::<usize>::empty());
    assert(plan.last() as int == k);
    assert(schedule_spec(ps, plan.drop_last()) == Seq::<(usize, usize)>::empty());
    assert(schedule_spec(ps, plan) == schedule_spec(ps, plan.drop_last()) + steps_of(plan.last(), ps[plan.last() as int].steps@.len()));
    assert(schedule_spec(ps, plan) =~= steps_of(k as usize, ps[k].steps@.len()));
}

} // verus!
