use rustm::logging::{InitGuard, InitLogError, init_logging, log_file_path, log_target_allowed};

#[test]
fn init_is_idempotent() {
    let mut guard = InitGuard::new();
    let first = init_logging(&mut guard);
    let second = init_logging(&mut guard);
    assert!(first);
    assert!(!second);
}

#[test]
fn log_file_sits_beside_configuration() {
    assert!(log_file_path().ends_with("/rustm/rustm.log"));
}

#[test]
fn log_filter_drops_ui_records() {
    assert!(!log_target_allowed("cursive_core::backend"));
    assert!(log_target_allowed("rustm::config"));
    assert!(log_target_allowed("cursive"));
}

#[test]
fn init_log_error_messages() {
    let io = InitLogError::Io("disk full".to_string());
    assert_eq!(io.message(), "I/O error initializing logger: disk full");
    let set = InitLogError::SetLogger("already set".to_string());
    assert_eq!(set.message(), "Failed to set global logger: already set");
}
