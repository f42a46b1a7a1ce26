use tray_timer::error::{CommandError, PlatformCall};
use tray_timer::settings_window::{
    conclude_open, open_preset_settings, settings_window_config, OpenStep, SettingsWindow,
    StepOutcome,
};

#[test]
fn settings_window_is_fixed() {
    let config = settings_window_config();
    assert_eq!(config.label, "preset-settings");
    assert_eq!(config.page, "settings.html");
    assert_eq!(config.title, "Customize Presets");
    assert_eq!(config.width, 500);
    assert_eq!(config.height, 620);
    assert!(!config.resizable);
    assert!(config.centered);
    assert!(config.always_on_top);
}

#[test]
fn presence_gives_the_state() {
    assert_eq!(SettingsWindow::from_presence(false), SettingsWindow::Absent);
    assert_eq!(SettingsWindow::from_presence(true), SettingsWindow::Present);
}

#[test]
fn absent_window_is_created() {
    assert_eq!(
        open_preset_settings(SettingsWindow::Absent),
        OpenStep::CreateAndShow(settings_window_config())
    );
}

#[test]
fn present_window_is_focused() {
    assert_eq!(open_preset_settings(SettingsWindow::Present), OpenStep::FocusAndShow);
}

#[test]
fn opening_twice_creates_one_window() {
    let mut window = SettingsWindow::Absent;
    let mut created: u32 = 0;
    let mut focused: u32 = 0;
    for _ in 0..2 {
        match open_preset_settings(window) {
            OpenStep::CreateAndShow(_) => created += 1,
            OpenStep::FocusAndShow => focused += 1,
        }
        let (next, result) = conclude_open(window, StepOutcome::Completed);
        assert_eq!(result, Ok(()));
        window = next;
    }
    assert_eq!(created, 1);
    assert_eq!(focused, 1);
    assert_eq!(window, SettingsWindow::Present);
}

#[test]
fn opening_many_times_creates_one_window() {
    let mut window = SettingsWindow::Absent;
    let mut created: u32 = 0;
    for _ in 0..50 {
        if let OpenStep::CreateAndShow(_) = open_preset_settings(window) {
            created += 1;
        }
        window = conclude_open(window, StepOutcome::Completed).0;
    }
    assert_eq!(created, 1);
}

#[test]
fn completed_request_leaves_the_window_present() {
    assert_eq!(
        conclude_open(SettingsWindow::Absent, StepOutcome::Completed),
        (SettingsWindow::Present, Ok(()))
    );
    assert_eq!(
        conclude_open(SettingsWindow::Present, StepOutcome::Completed),
        (SettingsWindow::Present, Ok(()))
    );
}

#[test]
fn failed_creation_leaves_the_window_absent() {
    let (window, result) = conclude_open(
        SettingsWindow::Absent,
        StepOutcome::CreationFailed(String::from("no display")),
    );
    assert_eq!(window, SettingsWindow::Absent);
    assert_eq!(
        result,
        Err(CommandError::WindowCreationError { detail: String::from("no display") })
    );
    assert_eq!(result.unwrap_err().message(), "Failed to create settings window: no display");
}

#[test]
fn failed_creation_is_tried_again() {
    let (window, _) =
        conclude_open(SettingsWindow::Absent, StepOutcome::CreationFailed(String::from("x")));
    assert_eq!(open_preset_settings(window), OpenStep::CreateAndShow(settings_window_config()));
}

#[test]
fn failed_call_is_reported_as_the_platform_put_it() {
    let (window, result) =
        conclude_open(SettingsWindow::Present, StepOutcome::CallFailed(String::from("denied")));
    assert_eq!(window, SettingsWindow::Present);
    assert_eq!(
        result,
        Err(CommandError::PlatformError {
            call: PlatformCall::Other,
            detail: String::from("denied"),
        })
    );
    assert_eq!(result.unwrap_err().message(), "denied");
}

#[test]
fn failed_show_after_creation_leaves_the_window_present() {
    let (window, result) =
        conclude_open(SettingsWindow::Absent, StepOutcome::CallFailed(String::from("hidden")));
    assert_eq!(window, SettingsWindow::Present);
    assert!(result.is_err());
    assert_eq!(open_preset_settings(window), OpenStep::FocusAndShow);
}
