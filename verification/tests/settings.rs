use gchimp::s2g::error::{ErrorKind, S2GError};
use gchimp::s2g::protocol::{Action, Discovery, Event};
use gchimp::s2g::tools::{run_crowbar, run_no_vtf, run_studiomdl, Launch, Platform};
use gchimp::s2g::{tool_paths, Installed, S2GOptions, S2GSettings};

fn strings(list: &[&str]) -> Vec<String> {
    list.iter().map(|s| s.to_string()).collect()
}

fn installed(folder: bool, studiomdl: bool, crowbar: bool, no_vtf: bool) -> Installed {
    Installed { folder, studiomdl, crowbar, no_vtf }
}

fn refusal(platform: Platform, found: Installed) -> S2GError {
    match S2GSettings::new("bin", platform, &found) {
        Ok(_) => panic!("expected a refusal"),
        Err(error) => error,
    }
}

#[test]
fn settings_need_the_directory_of_binaries() {
    let error = refusal(Platform::Windows, installed(false, false, false, false));
    assert_eq!(error.kind, ErrorKind::Configuration);
    assert_eq!(error.text, "bin containing binaries for S2G does not exist.");
}

#[test]
fn settings_need_the_compiler() {
    let error = refusal(Platform::Windows, installed(true, false, false, false));
    assert_eq!(error.kind, ErrorKind::Configuration);
    assert_eq!(error.text, "Cannot find studiomdl.exe in bin");
}

#[test]
fn settings_need_the_decompiler() {
    let error = refusal(Platform::Windows, installed(true, true, false, false));
    assert_eq!(error.text, "Cannot find crowbar.exe in bin");
}

#[test]
fn settings_need_the_texture_converter() {
    let error = refusal(Platform::Windows, installed(true, true, true, false));
    assert_eq!(error.text, "Cannot find no_vtf.exe in bin");
    let error = refusal(Platform::Unix, installed(true, true, true, false));
    assert_eq!(error.text, "Cannot find no_vtf in bin");
}

#[test]
fn tools_are_launched_natively_on_windows() {
    let settings =
        S2GSettings::new("bin", Platform::Windows, &installed(true, true, true, true)).unwrap();
    let crowbar = run_crowbar("m/a.mdl", &settings).unwrap();
    assert!(matches!(crowbar.launch, Launch::Native));
    assert_eq!(crowbar.argv, strings(&["bin/crowbar.exe", "-p", "m/a.mdl"]));
    let studiomdl = run_studiomdl("m/a_goldsrc.qc", &settings).unwrap();
    assert!(matches!(studiomdl.launch, Launch::Native));
    assert_eq!(studiomdl.argv, strings(&["bin/studiomdl.exe", "m/a_goldsrc.qc"]));
    let no_vtf = run_no_vtf("m", &settings);
    assert!(matches!(no_vtf.launch, Launch::Native));
    assert_eq!(no_vtf.argv[0], "bin/no_vtf/no_vtf.exe");
}

#[test]
fn windows_tools_go_through_wine_elsewhere() {
    let mut settings =
        S2GSettings::new("bin/", Platform::Unix, &installed(true, true, true, true)).unwrap();
    settings.wine_prefix("/home/me/.wine");
    assert!(settings.check_wine_prefix().is_ok());
    let crowbar = run_crowbar("m/a.mdl", &settings).unwrap();
    match &crowbar.launch {
        Launch::Wine(prefix) => assert_eq!(prefix, "/home/me/.wine"),
        other => panic!("expected Wine, got {:?}", other),
    }
    assert_eq!(crowbar.argv, strings(&["bin/crowbar.exe", "-p", "m/a.mdl"]));
    let studiomdl = run_studiomdl("m/a_goldsrc.qc", &settings).unwrap();
    assert!(matches!(studiomdl.launch, Launch::Wine(_)));
    // The texture converter is the host's own binary.
    let no_vtf = run_no_vtf("m", &settings);
    assert!(matches!(no_vtf.launch, Launch::Transparent));
    assert_eq!(
        no_vtf.argv,
        strings(&[
            "bin/no_vtf/no_vtf",
            "m",
            "--output-dir",
            "m",
            "--ldr-format",
            "png",
            "--max-resolution",
            "512",
        ])
    );
}

#[test]
fn windows_tools_need_a_prefix_elsewhere() {
    let settings =
        S2GSettings::new("bin", Platform::Unix, &installed(true, true, true, true)).unwrap();
    let error = settings.check_wine_prefix().unwrap_err();
    assert_eq!(error.kind, ErrorKind::Configuration);
    assert_eq!(error.message(), "No WINEPREFIX supplied");
    assert_eq!(run_crowbar("a.mdl", &settings).unwrap_err().text, "No WINEPREFIX supplied");
    assert_eq!(run_studiomdl("a.qc", &settings).unwrap_err().text, "No WINEPREFIX supplied");
    // The texture converter needs none.
    assert!(matches!(run_no_vtf("m", &settings).launch, Launch::Transparent));
}

#[test]
fn no_prefix_is_needed_on_windows() {
    let settings =
        S2GSettings::new("bin", Platform::Windows, &installed(true, true, true, true)).unwrap();
    assert!(settings.check_wine_prefix().is_ok());
}

#[test]
fn tool_paths_can_be_set_one_by_one() {
    let mut settings =
        S2GSettings::new("bin", Platform::Windows, &installed(true, true, true, true)).unwrap();
    settings.studiomdl("x/compile.exe").crowbar("y/decompile.exe").no_vtf("z/textures");
    assert_eq!(run_crowbar("a.mdl", &settings).unwrap().argv[0], "y/decompile.exe");
    assert_eq!(run_studiomdl("a.qc", &settings).unwrap().argv[0], "x/compile.exe");
    assert_eq!(run_no_vtf("m", &settings).argv[0], "z/textures");
}

#[test]
fn job_is_made_with_every_stage_on_and_not_forced() {
    let found = installed(true, true, true, true);
    let mut job =
        S2GOptions::new_with_path_to_bin("m/a.mdl", "bin", Platform::Windows, &found).unwrap();
    assert_eq!(job.pseudo_stdout(), "");
    assert!(!job.degraded());
    job.work(Event::Start);
    // Decompiling is on: the sidecars are asked for first.
    match job.work(Event::Discovered(Discovery::File)) {
        Action::Probe { paths } => assert_eq!(paths, strings(&["m/a.vvd", "m/a.vtx"])),
        other => panic!("expected a probe, got {:?}", other),
    }
    // Not forced: a missing file ends the job.
    assert!(matches!(
        job.work(Event::Probed(vec![false, true])),
        Action::Finish { result: Err(_) }
    ));
}

#[test]
fn job_is_not_made_without_its_tools() {
    let found = installed(true, true, false, true);
    match S2GOptions::new_with_path_to_bin("m/a.mdl", "bin", Platform::Windows, &found) {
        Ok(_) => panic!("expected a refusal"),
        Err(error) => {
            assert_eq!(error.kind, ErrorKind::Configuration);
            assert_eq!(error.text, "Cannot find crowbar.exe in bin");
        }
    }
}

#[test]
fn tools_are_expected_in_the_directory_of_binaries() {
    let tools = tool_paths("dist", Platform::Windows);
    assert_eq!(tools.studiomdl, "dist/studiomdl.exe");
    assert_eq!(tools.crowbar, "dist/crowbar.exe");
    assert_eq!(tools.no_vtf, "dist/no_vtf/no_vtf.exe");
    let tools = tool_paths("/opt/s2g/", Platform::Unix);
    assert_eq!(tools.studiomdl, "/opt/s2g/studiomdl.exe");
    assert_eq!(tools.crowbar, "/opt/s2g/crowbar.exe");
    assert_eq!(tools.no_vtf, "/opt/s2g/no_vtf/no_vtf");
}
