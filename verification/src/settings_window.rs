use crate::error::{CommandError, PlatformCall};
use vstd::prelude::*;
use vstd::string::*;

verus! {

/// Whether the preset-settings window exists.
#[derive(Clone, Copy, Debug, PartialEq, Eq, Structural)]
pub enum SettingsWindow {
    Absent,
    Present,
}

/// How a window is to be built.
#[derive(Clone, Copy, Debug, PartialEq, Eq)]
pub struct WindowConfig {
    /// The name by which the window is found again.
    pub label: &'static str,
    /// The page that the window loads.
    pub page: &'static str,
    /// The text in the window's title bar.
    pub title: &'static str,
    /// Inner width, in logical pixels.
    pub width: u32,
    /// Inner height, in logical pixels.
    pub height: u32,
    pub resizable: bool,
    pub centered: bool,
    pub always_on_top: bool,
}

/// What a request to open the preset-settings window asks of the platform.
#[derive(Clone, Copy, Debug, PartialEq, Eq)]
pub enum OpenStep {
    /// Build the window as described, then show it.
    CreateAndShow(WindowConfig),
    /// Focus the window that exists, then show it.
    FocusAndShow,
}

/// How the platform answered an [`OpenStep`].
#[derive(Debug, PartialEq, Eq)]
pub enum StepOutcome {
    /// Every call succeeded.
    Completed,
    /// The window could not be built; the platform's text.
    CreationFailed(String),
    /// The window exists, but focusing or showing it was rejected; the
    /// platform's text.
    CallFailed(String),
}

/// Whether `config` describes the preset-settings window: fixed size, centred,
/// above other windows.
pub open spec fn is_settings_config(config: WindowConfig) -> bool {
    &&& config.label@ == "preset-settings"@
    &&& config.page@ == "settings.html"@
    &&& config.title@ == "Customize Presets"@
    &&& config.width == 500
    &&& config.height == 620
    &&& !config.resizable
    &&& config.centered
    &&& config.always_on_top
}

/// Whether a request to open the window, made while it is in state `window`,
/// builds a window.
pub open spec fn creates_window(window: SettingsWindow) -> bool {
    window is Absent
}

/// The state of the window after a request that was made in state `window`
/// and succeeded or, if `built` is false, failed to build the window.
pub open spec fn window_after(window: SettingsWindow, built: bool) -> SettingsWindow {
    if built {
        SettingsWindow::Present
    } else {
        window
    }
}

/// How many windows `requests` requests in a row build, the first made in
/// state `window`, where every call to the platform succeeds.
pub open spec fn windows_built(window: SettingsWindow, requests: nat) -> nat
    decreases requests,
{
    if requests == 0 {
        0
    } else {
        let built: nat = if creates_window(window) {
            1
        } else {
            0
        };
        built + windows_built(window_after(window, true), (requests - 1) as nat)
    }
}

impl SettingsWindow {
    /// The state in which the window is if the platform finds it
    /// (`found`) or does not.
    pub fn from_presence(found: bool) -> (window: SettingsWindow)
        ensures
            window is Present <==> found,
    {
        if found {
            SettingsWindow::Present
        } else {
            SettingsWindow::Absent
        }
    }
}

/// The description of the preset-settings window.
pub fn settings_window_config() -> (config: WindowConfig)
    ensures
        is_settings_config(config),
{
    WindowConfig {
        label: "preset-settings",
        page: "settings.html",
        title: "Customize Presets",
        width: 500,
        height: 620,
        resizable: false,
        centered: true,
        always_on_top: true,
    }
}

/// Decides what a request to open the preset-settings window asks of the
/// platform: the window is built only if it does not exist yet.
pub fn open_preset_settings(window: SettingsWindow) -> (step: OpenStep)
    ensures
        creates_window(window) ==> (step matches OpenStep::CreateAndShow(config)
            && is_settings_config(config)),
        !creates_window(window) ==> step is FocusAndShow,
{
    match window {
        SettingsWindow::Absent => OpenStep::CreateAndShow(settings_window_config()),
        SettingsWindow::Present => OpenStep::FocusAndShow,
    }
}

/// Concludes a request that was made in state `window`: the state of the
/// window afterwards, and what the caller of the request is told.
pub fn conclude_open(window: SettingsWindow, outcome: StepOutcome) -> (concluded: (
    SettingsWindow,
    Result<(), CommandError>,
))
    ensures
        concluded.0 == window_after(window, !(outcome is CreationFailed)),
        outcome is Completed ==> concluded.1 is Ok,
        outcome matches StepOutcome::CreationFailed(detail) ==> (concluded.1 matches Err(
            CommandError::WindowCreationError { detail: told },
        ) && told@ == detail@),
        outcome matches StepOutcome::CallFailed(detail) ==> (concluded.1 matches Err(
            CommandError::PlatformError { call, detail: told },
        ) && call == PlatformCall::Other && told@ == detail@),
{
    match outcome {
        StepOutcome::Completed => (SettingsWindow::Present, Ok(())),
        StepOutcome::CreationFailed(detail) => (
            window,
            Err(CommandError::WindowCreationError { detail }),
        ),
        StepOutcome::CallFailed(detail) => (
            SettingsWindow::Present,
            Err(CommandError::PlatformError { call: PlatformCall::Other, detail }),
        ),
    }
}

/// Once the window exists, no request builds another.
pub proof fn lemma_present_builds_none(requests: nat)
    ensures
        windows_built(SettingsWindow::Present, requests) == 0,
    decreases requests,
{
    if requests > 0 {
        lemma_present_builds_none((requests - 1) as nat);
    }
}

/// Any number of requests in a row, the first made while the window is
/// absent, build exactly one window: the first builds it, the others focus
/// it.
pub proof fn lemma_requests_build_one_window(requests: nat)
    requires
        requests >= 1,
    ensures
        windows_built(SettingsWindow::Absent, requests) == 1,
        creates_window(SettingsWindow::Absent),
        !creates_window(window_after(SettingsWindow::Absent, true)),
{
    lemma_present_builds_none((requests - 1) as nat);
}

} // verus!
