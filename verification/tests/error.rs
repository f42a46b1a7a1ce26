use tray_timer::error::{CommandError, PlatformCall};
use tray_timer::shortcut::register_shortcut;

#[test]
fn message_of_monitor_unavailable() {
    assert_eq!(CommandError::MonitorUnavailable.message(), "No monitor found");
}

#[test]
fn message_of_tray_not_found() {
    assert_eq!(CommandError::TrayNotFound.message(), "Tray not found");
}

#[test]
fn message_of_window_creation_error() {
    let error = CommandError::WindowCreationError { detail: String::from("no display") };
    assert_eq!(error.message(), "Failed to create settings window: no display");
}

#[test]
fn message_of_failed_monitor_query() {
    let error = CommandError::PlatformError {
        call: PlatformCall::QueryMonitor,
        detail: String::from("timeout"),
    };
    assert_eq!(error.message(), "Failed to get monitor: timeout");
}

#[test]
fn message_of_failed_move() {
    let error = CommandError::PlatformError {
        call: PlatformCall::SetPosition,
        detail: String::from("window destroyed"),
    };
    assert_eq!(error.message(), "Failed to set position: window destroyed");
}

#[test]
fn message_of_failed_position_query() {
    let error = CommandError::PlatformError {
        call: PlatformCall::GetPosition,
        detail: String::from("window destroyed"),
    };
    assert_eq!(error.message(), "Failed to get position: window destroyed");
}

#[test]
fn message_of_other_platform_failure_is_the_detail() {
    let error = CommandError::PlatformError {
        call: PlatformCall::Other,
        detail: String::from("menu handle is gone"),
    };
    assert_eq!(error.message(), "menu handle is gone");
}

#[test]
fn message_keeps_empty_and_non_ascii_detail() {
    let empty = CommandError::PlatformError { call: PlatformCall::Other, detail: String::new() };
    assert_eq!(empty.message(), "");
    let accented = CommandError::WindowCreationError { detail: String::from("échec ↔ 失敗") };
    assert_eq!(accented.message(), "Failed to create settings window: échec ↔ 失敗");
}

#[test]
fn register_shortcut_always_succeeds() {
    assert_eq!(register_shortcut("Ctrl+Shift+T", "toggle"), Ok(()));
    assert_eq!(register_shortcut("", ""), Ok(()));
    assert_eq!(register_shortcut("not a shortcut", "no such action"), Ok(()));
}
