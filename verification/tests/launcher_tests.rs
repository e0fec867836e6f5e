use sidecar_supervisor::launcher::{
    find_uv_path, get_sidecar_binary_name, get_sidecar_dir_name, is_dev_mode, plan_dev_start,
    plan_prod_start, resolve_backend_log_path, uv_candidate_paths, Platform, SpawnError,
};
use sidecar_supervisor::supervisor::SupervisorCore;

#[test]
fn test_is_dev_mode() {
    // A debug build selects development mode
    assert!(is_dev_mode(true));

    // A release build selects production mode
    assert!(!is_dev_mode(false));
}

#[test]
fn sidecar_dir_name_per_platform() {
    assert_eq!(get_sidecar_dir_name(Platform::MacAarch64), "sidecar-aarch64-apple-darwin");
    assert_eq!(get_sidecar_dir_name(Platform::MacX64), "sidecar-x86_64-apple-darwin");
    assert_eq!(get_sidecar_dir_name(Platform::LinuxAarch64), "sidecar-aarch64-unknown-linux-gnu");
    assert_eq!(get_sidecar_dir_name(Platform::LinuxX64), "sidecar-x86_64-unknown-linux-gnu");
    assert_eq!(get_sidecar_dir_name(Platform::WindowsX64), "sidecar-x86_64-pc-windows-msvc");
}

#[test]
fn sidecar_binary_name_per_platform() {
    assert_eq!(
        get_sidecar_binary_name(Platform::MacAarch64),
        "backend-sidecar-aarch64-apple-darwin"
    );
    assert_eq!(get_sidecar_binary_name(Platform::MacX64), "backend-sidecar-x86_64-apple-darwin");
    assert_eq!(
        get_sidecar_binary_name(Platform::LinuxAarch64),
        "backend-sidecar-aarch64-unknown-linux-gnu"
    );
    assert_eq!(
        get_sidecar_binary_name(Platform::LinuxX64),
        "backend-sidecar-x86_64-unknown-linux-gnu"
    );
    assert_eq!(
        get_sidecar_binary_name(Platform::WindowsX64),
        "backend-sidecar-x86_64-pc-windows-msvc.exe"
    );
}

#[test]
fn uv_candidates_from_home() {
    let c = uv_candidate_paths("/home/u");
    assert_eq!(c.len(), 4);
    assert_eq!(c[0], "/home/u/.local/bin/uv");
    assert_eq!(c[1], "/home/u/.cargo/bin/uv");
    assert_eq!(c[2], "/usr/local/bin/uv");
    assert_eq!(c[3], "/opt/homebrew/bin/uv");
}

#[test]
fn find_uv_picks_first_existing() {
    let c = uv_candidate_paths("/home/u");
    let exists = vec![false, true, true, false];
    assert_eq!(find_uv_path(&c, &exists), "/home/u/.cargo/bin/uv");
}

#[test]
fn find_uv_falls_back_to_search_path() {
    let c = uv_candidate_paths("/home/u");
    let exists = vec![false, false, false, false];
    assert_eq!(find_uv_path(&c, &exists), "uv");
}

#[test]
fn log_path_prefers_platform_log_dir() {
    let r = resolve_backend_log_path(&Some("/logs".to_string()), &Some("/data".to_string()), "/tmp");
    assert_eq!(r, "/logs/backend-sidecar.log");
}

#[test]
fn log_path_uses_data_dir_next() {
    let r = resolve_backend_log_path(&None, &Some("/data".to_string()), "/tmp");
    assert_eq!(r, "/data/logs/backend-sidecar.log");
}

#[test]
fn log_path_falls_back_to_temp_dir() {
    let r = resolve_backend_log_path(&None, &None, "/tmp");
    assert_eq!(r, "/tmp/alproj-gui/backend-sidecar.log");
}

#[test]
fn dev_start_missing_backend_dir() {
    // Start in a mode where the backend directory is absent: the spawn
    // fails naming the missing path, nothing is stored in the state and
    // the readiness flag stays down.
    let r = plan_dev_start(
        "/proj/backend",
        false,
        &Some("/usr/local/bin/uv".to_string()),
        "/tmp/b.log",
    );
    match r {
        Err(SpawnError::MissingBackendDir { ref path }) => {
            assert_eq!(path, "/proj/backend");
        }
        _ => panic!("expected a missing-directory error"),
    }
    let e = r.unwrap_err();
    assert_eq!(e.message(), "Backend directory does not exist: /proj/backend");

    let core = SupervisorCore::new();
    assert!(core.backend_pid.is_none());
    assert!(!core.backend_ready);
    assert_eq!(core.status_label(), "connecting");
}

#[test]
fn dev_start_plan() {
    let r = plan_dev_start(
        "/proj/backend",
        true,
        &Some("/usr/local/bin/uv".to_string()),
        "/tmp/b.log",
    );
    let p = r.unwrap();
    assert_eq!(p.program, "/usr/local/bin/uv");
    assert_eq!(
        p.args,
        vec!["run", "uvicorn", "app.main:app", "--host", "127.0.0.1", "--port", "8765"]
    );
    assert_eq!(p.working_dir, "/proj/backend");
    assert_eq!(p.log_path, "/tmp/b.log");
}

#[test]
fn dev_start_without_uv() {
    let r = plan_dev_start("/proj/backend", true, &None, "/tmp/b.log");
    let e = r.unwrap_err();
    assert!(matches!(e, SpawnError::UvUnavailable));
    assert_eq!(e.message(), "Could not find uv. Please ensure uv is installed.");
}

#[test]
fn prod_start_plan() {
    let r = plan_prod_start("/res", Platform::LinuxX64, true, "/tmp/b.log");
    let p = r.unwrap();
    assert_eq!(
        p.program,
        "/res/binaries/sidecar-x86_64-unknown-linux-gnu/backend-sidecar-x86_64-unknown-linux-gnu"
    );
    assert_eq!(p.args, vec!["--host", "127.0.0.1", "--port", "8765"]);
    assert_eq!(p.working_dir, "/res/binaries/sidecar-x86_64-unknown-linux-gnu");
    assert_eq!(p.log_path, "/tmp/b.log");
}

#[test]
fn prod_start_missing_binary() {
    let r = plan_prod_start("/res", Platform::WindowsX64, false, "/tmp/b.log");
    let e = r.unwrap_err();
    match &e {
        SpawnError::MissingSidecarBinary { path } => {
            assert_eq!(
                path,
                "/res/binaries/sidecar-x86_64-pc-windows-msvc/backend-sidecar-x86_64-pc-windows-msvc.exe"
            );
        }
        _ => panic!("expected a missing-binary error"),
    }
    assert_eq!(
        e.message(),
        "Sidecar binary not found: /res/binaries/sidecar-x86_64-pc-windows-msvc/backend-sidecar-x86_64-pc-windows-msvc.exe"
    );
}
