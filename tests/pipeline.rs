use std::io::Read;
use tugger::deb::FileData;
use tugger::error::Error;
use tugger::manifest::FileManifest;
use tugger::pipeline::{pipeline, tar_archive, Action, Execution, Pipeline, PipelineRegistry, Step, TarArchive};
use tugger::value::{Object, Value, ValueType};

fn tar_step(name: &str) -> Step {
    Step::TarArchive(TarArchive { dest_name: name.to_string(), file_manifest: FileManifest::new() })
}

fn named(name: &str, steps: usize) -> Pipeline {
    Pipeline { name: name.to_string(), dist_path: "/dist".to_string(), steps: (0..steps).map(|i| tar_step(&i.to_string())).collect() }
}

fn run(ex: &mut Execution, registry: &tugger::pipeline::FrozenRegistry, fail_at: Option<usize>) -> Vec<(usize, usize)> {
    let mut ran = Vec::new();
    let mut count = 0;
    loop {
        match ex.next_action() {
            Action::RunStep { pipeline, step } => {
                ran.push((pipeline, step));
                let outcome = if Some(count) == fail_at { Err("boom".to_string()) } else { Ok(()) };
                count += 1;
                ex.step_done(registry, outcome);
            }
            Action::Finished | Action::Failed => return ran,
        }
    }
}

#[test]
fn named_execution_runs_first_match_only() {
    let mut reg = PipelineRegistry::new();
    reg.add(named("build", 1));
    reg.add(named("release", 1));
    reg.add(named("release", 2));
    let reg = reg.freeze();
    let plan = reg.plan_named("release").unwrap();
    assert_eq!(plan, vec![1]);
    let mut ex = Execution::new(&reg, &plan);
    assert_eq!(run(&mut ex, &reg, None), vec![(1, 0)]);
    assert_eq!(ex.outcome(), Ok(()));
}

#[test]
fn named_execution_not_found() {
    let mut reg = PipelineRegistry::new();
    reg.add(named("build", 1));
    let reg = reg.freeze();
    assert_eq!(reg.plan_named("nope"), Err(Error::NotFound { name: "nope".to_string() }));
}

#[test]
fn execute_all_in_declared_order() {
    let mut reg = PipelineRegistry::new();
    reg.add(named("a", 2));
    reg.add(named("b", 0));
    reg.add(named("c", 1));
    let reg = reg.freeze();
    let plan = reg.plan_all();
    assert_eq!(plan, vec![0, 1, 2]);
    let mut ex = Execution::new(&reg, &plan);
    assert_eq!(run(&mut ex, &reg, None), vec![(0, 0), (0, 1), (2, 0)]);
}

#[test]
fn execute_all_stops_at_first_failure() {
    let mut reg = PipelineRegistry::new();
    reg.add(named("a", 2));
    reg.add(named("b", 1));
    let reg = reg.freeze();
    let plan = reg.plan_all();
    let mut ex = Execution::new(&reg, &plan);
    assert_eq!(run(&mut ex, &reg, Some(1)), vec![(0, 0), (0, 1)]);
    assert_eq!(ex.next_action(), Action::Failed);
    assert_eq!(
        ex.outcome(),
        Err(Error::PipelineFailed { pipeline: "a".to_string(), step: 1, message: "boom".to_string() })
    );
}

#[test]
fn pipeline_constructor_checks_steps() {
    let step = tar_archive(&Value::Str("out.tar".to_string()), &Value::Object(Object::FileManifest(FileManifest::new())))
        .unwrap();
    let p = pipeline("/dist", &Value::Str("p".to_string()), &Value::List(vec![Value::Object(Object::TarArchive(step))]))
        .unwrap();
    assert_eq!(p.name, "p");
    assert_eq!(p.dist_path, "/dist");
    assert_eq!(p.steps.len(), 1);
    let p = pipeline("/dist", &Value::Str("p".to_string()), &Value::NoneValue).unwrap();
    assert_eq!(p.steps.len(), 0);
    let r = pipeline("/dist", &Value::Str("p".to_string()), &Value::List(vec![Value::Int(1)]));
    assert_eq!(
        r.unwrap_err(),
        Error::TypeMismatch { argument: "steps".to_string(), expected: ValueType::TarArchive, got: ValueType::Int }
    );
    let r = tar_archive(&Value::Str("x".to_string()), &Value::NoneValue);
    assert_eq!(
        r.unwrap_err(),
        Error::TypeMismatch { argument: "manifest".to_string(), expected: ValueType::FileManifest, got: ValueType::NoneType }
    );
}

#[test]
fn tar_round_trip() {
    let mut m = FileManifest::new();
    m.insert("x/one".to_string(), "/src/one".to_string());
    m.insert("b/two".to_string(), "/src/two".to_string());
    let t = TarArchive { dest_name: "out.tar".to_string(), file_manifest: m };
    // Data in key order: "b/two", then "x/one".
    let data = vec![
        FileData { content: b"second".to_vec(), executable: true },
        FileData { content: b"first file".to_vec(), executable: false },
    ];
    let bytes = t.write_tar(&data, 1153704088).unwrap();
    let mut archive = tar::Archive::new(&bytes[..]);
    let mut got = Vec::new();
    for e in archive.entries().unwrap() {
        let mut e = e.unwrap();
        let path = e.path().unwrap().display().to_string();
        let mode = e.header().mode().unwrap();
        let mut content = Vec::new();
        e.read_to_end(&mut content).unwrap();
        got.push((path, mode, content));
    }
    assert_eq!(
        got,
        vec![("b/two".to_string(), 0o755, b"second".to_vec()), ("x/one".to_string(), 0o644, b"first file".to_vec())]
    );
    assert_eq!(t.write_tar(&data, 1153704088).unwrap(), bytes);
    let members = t.members();
    assert_eq!(members[0].0, "b/two");
}

#[test]
fn tar_of_empty_manifest_is_end_blocks_only() {
    let t = TarArchive { dest_name: "out.tar".to_string(), file_manifest: FileManifest::new() };
    assert_eq!(t.write_tar(&vec![], 0).unwrap(), vec![0u8; 1024]);
}

#[test]
fn tar_refuses_parent_segments() {
    let mut m = FileManifest::new();
    m.insert("../escape".to_string(), "/src/a".to_string());
    let t = TarArchive { dest_name: "out.tar".to_string(), file_manifest: m };
    let data = vec![FileData { content: b"x".to_vec(), executable: false }];
    assert!(matches!(t.write_tar(&data, 0), Err(Error::IoFailure { .. })));
}
