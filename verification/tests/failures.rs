use gchimp::s2g::descriptor::ModelDescriptor;
use gchimp::s2g::error::{ErrorKind, S2GError};
use gchimp::s2g::protocol::{Action, Discovery, Event, MeshFailure, Phase, Stage};
use gchimp::s2g::tools::Platform;
use gchimp::s2g::{Installed, S2GOptions, S2GSettings};

fn strings(list: &[&str]) -> Vec<String> {
    list.iter().map(|s| s.to_string()).collect()
}

fn all_installed() -> Installed {
    Installed { folder: true, studiomdl: true, crowbar: true, no_vtf: true }
}

fn job_on(platform: Platform) -> S2GOptions {
    let settings = S2GSettings::new("dist", platform, &all_installed()).unwrap();
    S2GOptions::new("m", settings)
}

fn two_models() -> Discovery {
    Discovery::Directory(strings(&["m/a.mdl", "m/b.mdl"]))
}

fn failure_of(action: Action) -> S2GError {
    match action {
        Action::Finish { result: Err(error) } => error,
        other => panic!("expected a failure, got {:?}", other),
    }
}

fn linked(meshes: &[&str]) -> ModelDescriptor {
    let mut descriptor = ModelDescriptor::new();
    for (i, mesh) in meshes.iter().enumerate() {
        descriptor.add_body(&format!("part{}", i), mesh);
    }
    descriptor
}

/// A job at the point where the first of its two descriptors is asked for.
fn rewriting(force: bool) -> S2GOptions {
    let mut job = job_on(Platform::Windows);
    job.decompile(false).vtf(false).force(force);
    job.work(Event::Start);
    job.work(Event::Discovered(two_models()));
    assert!(matches!(
        job.work(Event::Probed(vec![true, true])),
        Action::LoadDescriptor { .. }
    ));
    job
}

#[test]
fn missing_prefix_ends_the_job_before_any_stage() {
    let mut job = job_on(Platform::Unix);
    let error = failure_of(job.work(Event::Start));
    assert_eq!(error.kind, ErrorKind::Configuration);
    assert_eq!(error.text, "No WINEPREFIX supplied");
    assert_eq!(job.stage(), Stage::Failed);
    assert_eq!(job.pseudo_stdout(), "");
}

#[test]
fn missing_prefix_ends_even_a_forced_job() {
    let mut job = job_on(Platform::Unix);
    job.force(true);
    let error = failure_of(job.work(Event::Start));
    assert_eq!(error.kind, ErrorKind::Configuration);
    assert_eq!(job.stage(), Stage::Failed);
}

#[test]
fn prefix_is_not_asked_of_a_job_that_launches_no_windows_tool() {
    let mut job = job_on(Platform::Unix);
    job.decompile(false).compile(false);
    assert!(matches!(job.work(Event::Start), Action::Discover { .. }));
}

#[test]
fn prefix_is_not_asked_on_windows() {
    let mut job = job_on(Platform::Windows);
    assert!(matches!(job.work(Event::Start), Action::Discover { .. }));
}

#[test]
fn prefix_set_on_the_job_lets_it_start() {
    let mut job = job_on(Platform::Unix);
    job.set_wine_prefix("/home/me/.wine");
    assert!(matches!(job.work(Event::Start), Action::Discover { .. }));
}

#[test]
fn stage_enabled_after_the_start_still_needs_the_prefix() {
    let mut job = job_on(Platform::Unix);
    job.decompile(false).compile(false).vtf(false).smd_and_qc(false);
    job.work(Event::Start);
    job.decompile(true);
    job.work(Event::Discovered(two_models()));
    let error = failure_of(job.work(Event::Probed(vec![true; 4])));
    assert_eq!(error.kind, ErrorKind::Configuration);
    assert_eq!(error.text, "No WINEPREFIX supplied");
}

#[test]
fn every_missing_sidecar_is_in_the_one_message() {
    let mut job = job_on(Platform::Windows);
    job.work(Event::Start);
    job.work(Event::Discovered(two_models()));
    let error = failure_of(job.work(Event::Probed(vec![false, false, true, false])));
    assert_eq!(error.kind, ErrorKind::Validation);
    assert_eq!(
        error.text,
        "Cannot find VVD file for m/a.mdlCannot find VTX file for m/a.mdl\
         Cannot find VTX file for m/b.mdl"
    );
    assert_eq!(job.pseudo_stdout(), &error.text);
    assert_eq!(job.stage(), Stage::Failed);
    assert!(job.issues().is_empty());
}

#[test]
fn forced_job_logs_every_missing_sidecar_and_decompiles_all() {
    let mut job = job_on(Platform::Windows);
    job.force(true);
    job.work(Event::Start);
    job.work(Event::Discovered(two_models()));
    match job.work(Event::Probed(vec![false, true, true, false])) {
        Action::Run { commands, parallel } => {
            assert!(parallel);
            assert_eq!(commands.len(), 2);
        }
        other => panic!("expected a run, got {:?}", other),
    }
    let log = job.pseudo_stdout().clone();
    assert!(log.contains("Cannot find VVD file for m/a.mdl"));
    assert!(log.contains("Cannot find VTX file for m/b.mdl"));
    assert!(!log.contains("Cannot find VTX file for m/a.mdl"));
    assert_eq!(job.issues().len(), 1);
    assert_eq!(job.stage(), Stage::Decompiling);
}

#[test]
fn failed_decompiler_ends_the_job() {
    let mut job = job_on(Platform::Windows);
    job.work(Event::Start);
    job.work(Event::Discovered(two_models()));
    job.work(Event::Probed(vec![true; 4]));
    let outcomes = vec![Some("exit code 1".to_string()), None];
    let error = failure_of(job.work(Event::Ran(outcomes)));
    assert_eq!(error.kind, ErrorKind::Process);
    assert_eq!(error.text, "External tool failed: exit code 1\n");
    assert_eq!(job.pseudo_stdout(), "External tool failed: exit code 1\n");
    assert_eq!(job.stage(), Stage::Failed);
}

#[test]
fn forced_job_logs_failed_tools_of_every_stage_and_goes_on() {
    let mut job = job_on(Platform::Windows);
    job.force(true).smd_and_qc(false);
    job.work(Event::Start);
    job.work(Event::Discovered(two_models()));
    job.work(Event::Probed(vec![true; 4]));
    let decompiled = vec![Some("first".to_string()), Some("second".to_string())];
    assert!(matches!(job.work(Event::Ran(decompiled)), Action::Run { parallel: false, .. }));
    assert_eq!(job.stage(), Stage::TextureConverting);
    let converted = vec![Some("third".to_string())];
    assert!(matches!(job.work(Event::Ran(converted)), Action::Run { .. }));
    assert_eq!(job.stage(), Stage::Recompiling);
    assert_eq!(
        job.issues(),
        strings(&[
            "External tool failed: first\nExternal tool failed: second\n",
            "External tool failed: third\n",
        ])
    );
    assert_eq!(
        job.pseudo_stdout(),
        "External tool failed: first\nExternal tool failed: second\n\
         External tool failed: third\nCompiling {} models: \n"
    );
}

#[test]
fn outcome_of_a_compiler_that_was_not_run_is_refused() {
    let mut job = job_on(Platform::Windows);
    job.decompile(false).vtf(false).smd_and_qc(false);
    job.work(Event::Start);
    job.work(Event::Discovered(two_models()));
    // Nothing was rewritten, so nothing is compiled; an outcome too many is refused.
    assert!(matches!(job.work(Event::Ran(vec![Some("x".to_string())])), Action::Rejected));
    assert_eq!(job.stage(), Stage::Recompiling);
}

#[test]
fn missing_descriptors_are_listed_one_to_a_line() {
    let mut job = job_on(Platform::Windows);
    job.decompile(false).vtf(false);
    job.work(Event::Start);
    job.work(Event::Discovered(two_models()));
    let error = failure_of(job.work(Event::Probed(vec![false, false])));
    assert_eq!(error.kind, ErrorKind::Validation);
    assert_eq!(error.text, "Cannot find some correspondings .qc files: \nm/a.qc\nm/b.qc\n");
    assert_eq!(job.pseudo_stdout(), &error.text);
    assert_eq!(job.stage(), Stage::Failed);
}

#[test]
fn forced_job_rewrites_the_descriptors_that_are_there() {
    let mut job = job_on(Platform::Windows);
    job.decompile(false).vtf(false).force(true);
    job.work(Event::Start);
    job.work(Event::Discovered(two_models()));
    match job.work(Event::Probed(vec![false, true])) {
        Action::LoadDescriptor { path } => assert_eq!(path, "m/b.qc"),
        other => panic!("expected a descriptor to load, got {:?}", other),
    }
    assert_eq!(job.pseudo_stdout(), "Cannot find some correspondings .qc files: \nm/a.qc\n");
    assert_eq!(job.issues().len(), 1);
}

#[test]
fn unreadable_descriptor_ends_the_job() {
    let mut job = rewriting(false);
    let error = failure_of(job.work(Event::DescriptorLoaded(Err("line 3".to_string()))));
    assert_eq!(error.kind, ErrorKind::Parse);
    assert_eq!(error.text, "Cannot load QC m/a.qc: line 3");
    assert_eq!(job.pseudo_stdout(), "Cannot load QC m/a.qc: line 3");
    assert_eq!(job.stage(), Stage::Failed);
}

#[test]
fn unreadable_mesh_ends_the_job_and_is_named() {
    let mut job = rewriting(false);
    job.work(Event::DescriptorLoaded(Ok(linked(&["one", "two\\three.smd"]))));
    let failure = MeshFailure { index: 1, reason: "No such file".to_string() };
    let error = failure_of(job.work(Event::MeshesLoaded(Err(failure))));
    assert_eq!(error.kind, ErrorKind::Parse);
    assert_eq!(error.text, "Cannot find linked SMD for m/a.qc: part1: No such file");
    assert_eq!(job.stage(), Stage::Failed);
}

#[test]
fn failed_mesh_write_ends_the_job() {
    let mut job = rewriting(false);
    job.work(Event::DescriptorLoaded(Ok(linked(&["one"]))));
    job.work(Event::MeshesLoaded(Ok(vec![1])));
    let error = failure_of(job.work(Event::Written(Err("disk full".to_string()))));
    assert_eq!(error.kind, ErrorKind::Write);
    assert_eq!(error.text, "Cannot write SMD: disk full");
    assert_eq!(job.stage(), Stage::Failed);
}

#[test]
fn failed_descriptor_write_ends_the_job() {
    let mut job = rewriting(false);
    job.work(Event::DescriptorLoaded(Ok(linked(&["one"]))));
    job.work(Event::MeshesLoaded(Ok(vec![1])));
    job.work(Event::Written(Ok(())));
    let error = failure_of(job.work(Event::Written(Err("read only".to_string()))));
    assert_eq!(error.kind, ErrorKind::Write);
    assert_eq!(error.text, "Cannot write QC m/a_goldsrc.qc: read only");
    assert_eq!(job.stage(), Stage::Failed);
}

#[test]
fn forced_job_skips_what_fails_and_logs_every_failure() {
    let mut job = rewriting(true);
    // The first descriptor cannot be read: the second is taken up.
    match job.work(Event::DescriptorLoaded(Err("line 3".to_string()))) {
        Action::LoadDescriptor { path } => assert_eq!(path, "m/b.qc"),
        other => panic!("expected a descriptor to load, got {:?}", other),
    }
    // Its mesh cannot be written: the stage ends, and the compile stage begins.
    job.work(Event::DescriptorLoaded(Ok(linked(&["one"]))));
    job.work(Event::MeshesLoaded(Ok(vec![2])));
    match job.work(Event::Written(Err("disk full".to_string()))) {
        Action::Run { commands, parallel } => {
            assert!(commands.is_empty());
            assert!(!parallel);
        }
        other => panic!("expected a run, got {:?}", other),
    }
    assert_eq!(
        job.issues(),
        strings(&[
            "Cannot load QC m/a.qc: line 3",
            "Cannot write SMD: disk full",
            "Failed to process 2/2 .qc files",
        ])
    );
    assert_eq!(
        job.pseudo_stdout(),
        "Cannot load QC m/a.qc: line 3Cannot write SMD: disk full\
         Failed to process 2/2 .qc filesCompiling {} models: \n"
    );
    for issue in job.issues() {
        assert!(job.pseudo_stdout().contains(&issue));
    }
    match job.work(Event::Ran(vec![])) {
        Action::Finish { result } => assert!(result.unwrap().is_empty()),
        other => panic!("expected the end, got {:?}", other),
    }
    assert_eq!(job.stage(), Stage::Done);
}

#[test]
fn forced_job_compiles_only_what_was_written() {
    let mut job = rewriting(true);
    job.work(Event::DescriptorLoaded(Ok(linked(&["one"]))));
    let failure = MeshFailure { index: 0, reason: "gone".to_string() };
    assert!(matches!(
        job.work(Event::MeshesLoaded(Err(failure))),
        Action::LoadDescriptor { .. }
    ));
    job.work(Event::DescriptorLoaded(Ok(linked(&["two"]))));
    job.work(Event::MeshesLoaded(Ok(vec![1])));
    job.work(Event::Written(Ok(())));
    match job.work(Event::Written(Ok(()))) {
        Action::Run { commands, .. } => {
            assert_eq!(commands.len(), 1);
            assert_eq!(commands[0].argv[1], "m/b_goldsrc.qc");
        }
        other => panic!("expected a run, got {:?}", other),
    }
    assert!(job.pseudo_stdout().contains("Cannot find linked SMD for m/a.qc: part0: gone"));
    assert!(job.pseudo_stdout().contains("Failed to process 1/2 .qc files"));
    match job.work(Event::Ran(vec![None])) {
        Action::Finish { result } => assert_eq!(result.unwrap(), strings(&["m/b_goldsrc.mdl"])),
        other => panic!("expected the end, got {:?}", other),
    }
}

#[test]
fn forced_job_lists_the_model_of_a_compiler_that_failed() {
    let mut job = rewriting(true);
    job.work(Event::DescriptorLoaded(Err("bad".to_string())));
    job.work(Event::DescriptorLoaded(Ok(linked(&[]))));
    job.work(Event::MeshesLoaded(Ok(vec![])));
    job.work(Event::Written(Ok(())));
    job.work(Event::Written(Ok(())));
    assert_eq!(job.phase(), Phase::Recompiling);
    match job.work(Event::Ran(vec![Some("crashed".to_string())])) {
        Action::Finish { result } => assert_eq!(result.unwrap(), strings(&["m/b_goldsrc.mdl"])),
        other => panic!("expected the end, got {:?}", other),
    }
    assert!(job.pseudo_stdout().ends_with("External tool failed: crashed\n"));
}

#[test]
fn mesh_report_must_fit_the_meshes_asked_for() {
    let mut job = rewriting(false);
    job.work(Event::DescriptorLoaded(Ok(linked(&["one", "two"]))));
    assert!(matches!(job.work(Event::MeshesLoaded(Ok(vec![1]))), Action::Rejected));
    assert!(matches!(job.work(Event::MeshesLoaded(Ok(vec![1, 1, 1]))), Action::Rejected));
    let beyond = MeshFailure { index: 2, reason: "?".to_string() };
    assert!(matches!(job.work(Event::MeshesLoaded(Err(beyond))), Action::Rejected));
    assert_eq!(job.phase(), Phase::LoadingMeshes);
    assert_eq!(job.pseudo_stdout(), "");
}

#[test]
fn failed_converter_does_not_end_the_job() {
    let mut job = job_on(Platform::Windows);
    job.decompile(false);
    job.work(Event::Start);
    assert!(matches!(job.work(Event::Discovered(two_models())), Action::Run { .. }));
    assert_eq!(job.stage(), Stage::TextureConverting);
    // Not forced, and the converter failed: the job goes on to rewrite.
    match job.work(Event::Ran(vec![Some("no textures".to_string())])) {
        Action::Probe { paths } => assert_eq!(paths, strings(&["m/a.qc", "m/b.qc"])),
        other => panic!("expected a probe, got {:?}", other),
    }
    assert_eq!(job.stage(), Stage::Rewriting);
    assert_eq!(job.pseudo_stdout(), "External tool failed: no textures\n");
    assert!(job.issues().is_empty());
}

#[test]
fn failed_compiler_does_not_end_the_job() {
    let mut job = rewriting(false);
    for _ in 0..2 {
        job.work(Event::DescriptorLoaded(Ok(linked(&[]))));
        job.work(Event::MeshesLoaded(Ok(vec![])));
        job.work(Event::Written(Ok(())));
        job.work(Event::Written(Ok(())));
    }
    assert_eq!(job.phase(), Phase::Recompiling);
    // Not forced, and both compilers failed: the models are given all the same.
    let outcomes = vec![Some("crashed".to_string()), Some("no output".to_string())];
    match job.work(Event::Ran(outcomes)) {
        Action::Finish { result } => assert_eq!(
            result.unwrap(),
            strings(&["m/a_goldsrc.mdl", "m/b_goldsrc.mdl"])
        ),
        other => panic!("expected the end, got {:?}", other),
    }
    assert_eq!(job.stage(), Stage::Done);
    assert_eq!(
        job.pseudo_stdout(),
        "Compiling {} models: \nm/a_goldsrc.qcm/b_goldsrc.qc\
         External tool failed: crashed\nExternal tool failed: no output\n"
    );
    assert!(job.issues().is_empty());
}

#[test]
fn forced_job_keeps_the_failure_of_a_compiler() {
    let mut job = rewriting(true);
    job.work(Event::DescriptorLoaded(Ok(linked(&[]))));
    job.work(Event::MeshesLoaded(Ok(vec![])));
    job.work(Event::Written(Ok(())));
    job.work(Event::Written(Ok(())));
    job.work(Event::DescriptorLoaded(Ok(linked(&[]))));
    job.work(Event::MeshesLoaded(Ok(vec![])));
    job.work(Event::Written(Ok(())));
    job.work(Event::Written(Ok(())));
    match job.work(Event::Ran(vec![None, Some("crashed".to_string())])) {
        Action::Finish { result } => assert_eq!(result.unwrap().len(), 2),
        other => panic!("expected the end, got {:?}", other),
    }
    assert_eq!(job.issues(), strings(&["External tool failed: crashed\n"]));
    assert!(job.degraded());
}
