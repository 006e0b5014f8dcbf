use medrun::guard::RunLocks;
use medrun::pipeline::{
    setup_embedded_python, InstallStep, SetupAction, SetupEvent, SetupPhase, SetupPipeline,
};
use medrun::runtime::{
    bundled_python_candidates, check_bundled_python, check_medical_libraries,
    check_python_status, check_system_python, get_python_path, get_python_version,
    library_check_script, system_python_commands, ProcessOutput, RuntimeProbe, SourceOrigin,
    SystemProbe,
};

fn output(success: bool, stdout: &str) -> ProcessOutput {
    ProcessOutput { success, stdout: Some(stdout.to_string()), stderr: String::new() }
}

fn probe(path: &str, ready: bool) -> RuntimeProbe {
    RuntimeProbe { path: path.to_string(), version: Some("Python 3.11.7".to_string()), core_ready: ready }
}

const FULL: &str = "{\"pandas\": true, \"numpy\": true, \"scipy\": true, \"matplotlib\": false, \"seaborn\": true, \"statsmodels\": true, \"sklearn\": false}";

#[test]
fn library_report_needs_foundation() {
    assert!(check_medical_libraries(&Ok(output(true, FULL))));
    let no_scipy = "{\"pandas\": true, \"numpy\": true, \"scipy\": false}";
    assert!(!check_medical_libraries(&Ok(output(true, no_scipy))));
    let missing = "{\"pandas\": true, \"numpy\": true}";
    assert!(!check_medical_libraries(&Ok(output(true, missing))));
    assert!(!check_medical_libraries(&Ok(output(true, "garbage"))));
    assert!(!check_medical_libraries(&Ok(output(false, FULL))));
    assert!(!check_medical_libraries(&Err("not found".to_string())));
    let no_utf8 = ProcessOutput { success: true, stdout: None, stderr: String::new() };
    assert!(!check_medical_libraries(&Ok(no_utf8)));
}

#[test]
fn check_script_lists_libraries() {
    let s = library_check_script();
    assert!(s.starts_with("import json\n"));
    assert!(s.contains("\"pandas\", \"numpy\", \"scipy\""));
    assert!(s.ends_with("print(json.dumps(available))\n"));
}

#[test]
fn version_is_trimmed() {
    assert_eq!(get_python_version(&Ok(output(true, "Python 3.11.7\r\n"))), Ok("Python 3.11.7".to_string()));
    assert_eq!(
        get_python_version(&Ok(output(false, ""))),
        Err("Failed to execute Python version command".to_string())
    );
    assert_eq!(
        get_python_version(&Err("no such file".to_string())),
        Err("Failed to get Python version: no such file".to_string())
    );
}

#[test]
fn bundled_candidates_in_order() {
    let c = bundled_python_candidates(Some("/opt/app/python/python.exe".to_string()));
    assert_eq!(c, vec!["resources/python/python.exe", "python/python.exe", "/opt/app/python/python.exe"]);
    assert_eq!(bundled_python_candidates(None).len(), 2);
    let probes = vec![
        ("resources/python/python.exe".to_string(), false),
        ("python/python.exe".to_string(), true),
        ("/opt/app/python/python.exe".to_string(), true),
    ];
    assert_eq!(check_bundled_python(&probes), Some("python/python.exe".to_string()));
    let none = vec![("a".to_string(), false)];
    assert_eq!(check_bundled_python(&none), None);
}

#[test]
fn system_python_uses_lookup_line() {
    assert_eq!(system_python_commands(), vec!["python", "python3", "py"]);
    let probes = vec![
        SystemProbe { command: "python".to_string(), version_ok: false, location: None },
        SystemProbe {
            command: "python3".to_string(),
            version_ok: true,
            location: Some("  C:\\Python311\\python3.exe \r\nC:\\Other\\python3.exe\r\n".to_string()),
        },
    ];
    assert_eq!(check_system_python(&probes), Some("C:\\Python311\\python3.exe".to_string()));
    let bare = vec![SystemProbe { command: "py".to_string(), version_ok: true, location: Some(String::new()) }];
    assert_eq!(check_system_python(&bare), Some("py".to_string()));
    let no_lookup = vec![SystemProbe { command: "python".to_string(), version_ok: true, location: None }];
    assert_eq!(check_system_python(&no_lookup), Some("python".to_string()));
    assert_eq!(check_system_python(&vec![]), None);
}

#[test]
fn resolver_prefers_usable_bundled() {
    let st = check_python_status(Some(probe("b", true)), Some(probe("s", true)));
    assert_eq!(st.source, SourceOrigin::Bundled);
    assert!(st.is_available && !st.setup_required && st.medical_libraries_available);
    assert_eq!(get_python_path(&st), Ok("b".to_string()));
}

#[test]
fn resolver_falls_back_to_usable_system() {
    let st = check_python_status(Some(probe("b", false)), Some(probe("s", true)));
    assert_eq!(st.source, SourceOrigin::System);
    assert_eq!(st.python_path, Some("s".to_string()));
    assert!(!st.setup_required);
    assert_eq!(st.source.name(), "system");
}

#[test]
fn resolver_reports_degraded_runtime() {
    let st = check_python_status(None, Some(probe("s", false)));
    assert_eq!(st.source, SourceOrigin::System);
    assert!(st.is_available && st.setup_required && !st.medical_libraries_available);
    let st = check_python_status(Some(probe("b", false)), Some(probe("s", false)));
    assert_eq!(st.source, SourceOrigin::Bundled);
    assert!(st.setup_required);
}

#[test]
fn resolver_without_runtime() {
    let st = check_python_status(None, None);
    assert_eq!(st.source, SourceOrigin::Absent);
    assert_eq!(st.source.name(), "none");
    assert!(!st.is_available && st.setup_required);
    assert_eq!(get_python_path(&st), Err("No Python installation found".to_string()));
}

#[test]
fn resolution_is_repeatable() {
    let a = check_python_status(Some(probe("b", false)), Some(probe("s", true)));
    let b = check_python_status(Some(probe("b", false)), Some(probe("s", true)));
    assert_eq!(a.python_path, b.python_path);
    assert_eq!(a.source, b.source);
    assert_eq!(a.version, b.version);
    assert_eq!(a.setup_required, b.setup_required);
    assert_eq!(a.is_available, b.is_available);
}

fn begin(python_path: String) -> SetupPipeline {
    let mut locks = RunLocks::new();
    setup_embedded_python(&mut locks, "/app/python", python_path).unwrap()
}

fn answer(action: &SetupAction, fail_lib: Option<&str>, core_ready: bool) -> SetupEvent {
    match action {
        SetupAction::ReadFile { .. } => SetupEvent::FileRead(Some("python311.zip\n.\n".to_string())),
        SetupAction::RunScript { .. } => SetupEvent::ProcessExited { success: true, stderr: String::new() },
        SetupAction::RunPython { args } => {
            let failed = fail_lib.map_or(false, |l| args.iter().any(|a| a == l));
            SetupEvent::ProcessExited { success: !failed, stderr: String::new() }
        }
        SetupAction::Inspect => SetupEvent::Inspected { version: Some("Python 3.11.7".to_string()), core_ready },
        _ => SetupEvent::Succeeded,
    }
}

fn run(p: &mut SetupPipeline, fail_lib: Option<&str>, core_ready: bool) -> Vec<SetupAction> {
    let mut actions = vec![];
    for _ in 0..100 {
        if p.is_finished() {
            break;
        }
        let a = p.action();
        let ev = answer(&a, fail_lib, core_ready);
        actions.push(a);
        p.advance(ev);
    }
    actions
}

#[test]
fn successful_run_reports_every_step_once() {
    let mut p = begin("/app/python/python.exe".to_string());
    let actions = run(&mut p, None, true);
    let steps: Vec<InstallStep> = p.events().iter().map(|e| e.step).collect();
    assert_eq!(
        steps,
        vec![
            InstallStep::Initializing,
            InstallStep::Downloading,
            InstallStep::Extracting,
            InstallStep::Configuring,
            InstallStep::InstallingPackageManager,
            InstallStep::InstallingRequiredLibraries,
            InstallStep::InstallingOptionalLibraries,
            InstallStep::Verifying,
            InstallStep::Completed,
        ]
    );
    let progress: Vec<u8> = p.events().iter().map(|e| e.progress).collect();
    assert_eq!(progress, vec![0, 10, 30, 50, 60, 70, 80, 90, 100]);
    let terminal: Vec<bool> = p.events().iter().map(|e| e.completed).collect();
    assert_eq!(terminal.iter().filter(|t| **t).count(), 1);
    assert!(*terminal.last().unwrap());
    assert_eq!(p.events().last().unwrap().message, "Medical Python environment ready!");
    assert_eq!(p.events()[1].message, "Downloading Python 3.11.7 embedded...");
    match p.outcome() {
        Some(Ok(st)) => {
            assert!(st.is_available && !st.setup_required);
            assert_eq!(st.python_path, Some("/app/python/python.exe".to_string()));
            assert_eq!(st.version, Some("Python 3.11.7".to_string()));
            assert_eq!(st.source, SourceOrigin::Bundled);
        }
        _ => panic!("expected success"),
    }
    // 8 required and 2 optional installs, each its own action.
    let installs = actions.iter().filter(|a| matches!(a, SetupAction::RunPython { .. })).count();
    assert_eq!(installs, 10);
    assert!(p.failed_libraries().is_empty());
    assert_eq!(InstallStep::InstallingPackageManager.name(), "installing_package_manager");
}

#[test]
fn path_file_gets_site_import() {
    let mut p = begin("py".to_string());
    let actions = run(&mut p, None, true);
    let write = actions.iter().find_map(|a| match a {
        SetupAction::WriteFile { file_name, content } => Some((file_name.clone(), content.clone())),
        _ => None,
    });
    assert_eq!(
        write,
        Some(("python311._pth".to_string(), "python311.zip\n.\n\nimport site\n".to_string()))
    );
}

#[test]
fn path_file_with_site_import_is_left_alone() {
    let mut p = begin("py".to_string());
    for _ in 0..4 {
        p.advance(SetupEvent::Succeeded);
    }
    assert_eq!(p.phase(), SetupPhase::ReadPathConfig);
    p.advance(SetupEvent::FileRead(Some("python311.zip\nimport site\n".to_string())));
    assert_eq!(p.phase(), SetupPhase::DownloadBootstrap);
}

#[test]
fn optional_library_failure_still_available() {
    let mut p = begin("py".to_string());
    run(&mut p, Some("plotly==5.18.0"), true);
    match p.outcome() {
        Some(Ok(st)) => assert!(st.is_available && !st.setup_required),
        _ => panic!("expected success"),
    }
    assert_eq!(p.failed_libraries(), &vec!["plotly==5.18.0".to_string()]);
    let mut q = begin("py".to_string());
    run(&mut q, Some("lifelines"), true);
    assert!(matches!(q.outcome(), Some(Ok(_))));
    assert_eq!(q.failed_libraries(), &vec!["lifelines".to_string()]);
}

#[test]
fn missing_foundation_fails_verification() {
    let mut p = begin("py".to_string());
    run(&mut p, Some("numpy==1.24.4"), false);
    let last = p.events().last().unwrap();
    assert!(last.completed);
    assert_eq!(last.step, InstallStep::Verifying);
    assert_eq!(last.error, Some("Medical libraries verification failed".to_string()));
    match p.outcome() {
        Some(Err(e)) => assert_eq!(e, "Medical libraries verification failed"),
        _ => panic!("expected a failure"),
    }
    assert_eq!(p.events().iter().filter(|e| e.completed).count(), 1);
}

#[test]
fn download_failure_ends_run() {
    let mut p = begin("py".to_string());
    p.advance(SetupEvent::Succeeded);
    match p.action() {
        SetupAction::Download { url, file_name } => {
            assert_eq!(url, "https://www.python.org/ftp/python/3.11.7/python-3.11.7-embed-amd64.zip");
            assert_eq!(file_name, "python-embed.zip");
        }
        _ => panic!("expected a download"),
    }
    p.advance(SetupEvent::Failed("dns error".to_string()));
    assert!(p.is_finished());
    let steps: Vec<InstallStep> = p.events().iter().map(|e| e.step).collect();
    assert_eq!(steps, vec![InstallStep::Initializing, InstallStep::Downloading, InstallStep::Downloading]);
    let last = p.events().last().unwrap();
    assert_eq!(last.error, Some("Failed to download Python: dns error".to_string()));
    assert_eq!(last.progress, 10);
    assert!(matches!(p.action(), SetupAction::Nothing));
    let before = p.events().len();
    p.advance(SetupEvent::Succeeded);
    assert_eq!(p.events().len(), before);
}

#[test]
fn package_manager_failure_carries_stderr() {
    let mut p = begin("py".to_string());
    for _ in 0..4 {
        p.advance(SetupEvent::Succeeded);
    }
    p.advance(SetupEvent::FileRead(None));
    p.advance(SetupEvent::Succeeded);
    match p.action() {
        SetupAction::RunScript { file_name, args } => {
            assert_eq!(file_name, "get-pip.py");
            assert_eq!(args, vec!["--no-warn-script-location".to_string()]);
        }
        _ => panic!("expected the bootstrap script"),
    }
    p.advance(SetupEvent::ProcessExited { success: false, stderr: "boom".to_string() });
    match p.outcome() {
        Some(Err(e)) => assert_eq!(e, "Pip installation failed: boom"),
        _ => panic!("expected a failure"),
    }
}

#[test]
fn cancelled_run_ends_with_error() {
    let mut p = begin("py".to_string());
    p.advance(SetupEvent::Succeeded);
    p.advance(SetupEvent::Succeeded);
    p.advance(SetupEvent::Cancelled);
    let last = p.events().last().unwrap();
    assert!(last.completed);
    assert_eq!(last.step, InstallStep::Extracting);
    assert_eq!(last.error, Some("Python setup cancelled".to_string()));
}

#[test]
fn pip_install_arguments() {
    let mut p = begin("py".to_string());
    let actions = run(&mut p, None, true);
    let first = actions.iter().find_map(|a| match a {
        SetupAction::RunPython { args } => Some(args.clone()),
        _ => None,
    });
    assert_eq!(
        first,
        Some(vec![
            "-m".to_string(),
            "pip".to_string(),
            "install".to_string(),
            "pandas==2.1.4".to_string(),
            "--quiet".to_string(),
            "--disable-pip-version-check".to_string(),
        ])
    );
}

#[test]
fn second_run_on_same_target_is_refused() {
    let mut locks = RunLocks::new();
    assert!(locks.try_acquire("/app/python"));
    assert!(!locks.try_acquire("/app/python"));
    assert!(locks.try_acquire("/other/python"));
    assert!(locks.is_held("/app/python"));
    locks.release("/app/python");
    assert!(!locks.is_held("/app/python"));
    assert!(locks.try_acquire("/app/python"));
}

#[test]
fn second_installation_on_same_directory_is_refused() {
    let mut locks = RunLocks::new();
    let first = setup_embedded_python(&mut locks, "/app/python", "/app/python/python.exe".to_string());
    assert!(first.is_ok());
    let second = setup_embedded_python(&mut locks, "/app/python", "/app/python/python.exe".to_string());
    assert_eq!(
        second.err(),
        Some("An installation into this directory is already running".to_string())
    );
    assert!(setup_embedded_python(&mut locks, "/other/python", "x".to_string()).is_ok());
    locks.release("/app/python");
    assert!(setup_embedded_python(&mut locks, "/app/python", "y".to_string()).is_ok());
}

#[test]
fn version_trims_unicode_white_space() {
    assert_eq!(
        get_python_version(&Ok(output(true, "\u{3000}Python 3.12.1\u{a0}\n"))),
        Ok("Python 3.12.1".to_string())
    );
}
