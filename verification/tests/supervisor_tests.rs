use sidecar_supervisor::numfmt::{i32_to_string, u64_to_string};
use sidecar_supervisor::supervisor::{greet, SupervisorCore};

#[test]
fn fresh_state_is_connecting() {
    let core = SupervisorCore::new();
    assert!(core.backend_pid.is_none());
    assert!(!core.backend_ready);
    assert!(core.backend_log_path.is_none());
    assert_eq!(core.status_label(), "connecting");
}

#[test]
fn launch_then_ready() {
    let mut core = SupervisorCore::new();
    core.record_launch(4242, "/tmp/b.log".to_string());
    assert_eq!(core.backend_pid, Some(4242));
    assert_eq!(core.backend_log_path.as_deref(), Some("/tmp/b.log"));
    assert_eq!(core.status_label(), "connecting");
    core.mark_ready();
    assert_eq!(core.status_label(), "connected");
    assert_eq!(core.backend_pid, Some(4242));
}

#[test]
fn handle_taken_only_once() {
    // Shutdown moves the handle out, so the process cannot be killed
    // twice.
    let mut core = SupervisorCore::new();
    core.record_launch(7, "/l".to_string());
    assert_eq!(core.take_handle(), Some(7));
    assert_eq!(core.take_handle(), None);
    assert!(core.backend_pid.is_none());
}

#[test]
fn greeting_names_the_caller() {
    assert_eq!(greet("Ada"), "Hello, Ada! Welcome to ALPROJ GUI.");
}

#[test]
fn decimal_rendering() {
    assert_eq!(u64_to_string(0), "0");
    assert_eq!(u64_to_string(8765), "8765");
    assert_eq!(u64_to_string(u64::MAX), "18446744073709551615");
    assert_eq!(i32_to_string(0), "0");
    assert_eq!(i32_to_string(-6), "-6");
    assert_eq!(i32_to_string(i32::MIN), "-2147483648");
    assert_eq!(i32_to_string(i32::MAX), "2147483647");
}
