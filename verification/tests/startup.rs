use app_shell::{startup_failure_message, startup_plan, LogLevel};

#[test]
fn debug_build_attaches_info_logging() {
    let p = startup_plan(true);
    assert!(p.os_info);
    assert_eq!(p.logging, Some(LogLevel::Info));
}

#[test]
fn release_build_attaches_no_logging() {
    let p = startup_plan(false);
    assert!(p.os_info);
    assert_eq!(p.logging, None);
}

#[test]
fn failure_message_is_fixed() {
    assert_eq!(
        startup_failure_message(),
        "error while running tauri application"
    );
}
