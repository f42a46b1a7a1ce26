use vstd::prelude::*;
use vstd::string::*;

verus! {

/// The platform call that a [`CommandError::PlatformError`] came from.
#[derive(Clone, Copy, Debug, PartialEq, Eq, Structural)]
pub enum PlatformCall {
    /// Asking for the primary monitor.
    QueryMonitor,
    /// Moving the window.
    SetPosition,
    /// Reading the window's outer position.
    GetPosition,
    /// Any other call; its detail is reported as it is.
    Other,
}

/// Why a command failed.
#[derive(Debug, PartialEq, Eq)]
pub enum CommandError {
    /// No primary monitor could be resolved.
    MonitorUnavailable,
    /// The platform rejected a call; `detail` is the platform's own text.
    PlatformError { call: PlatformCall, detail: String },
    /// The tray icon is missing.
    TrayNotFound,
    /// The preset-settings window could not be built.
    WindowCreationError { detail: String },
}

/// What precedes the platform's text in the message of a failed `call`.
pub open spec fn platform_prefix(call: PlatformCall) -> Seq<char> {
    match call {
        PlatformCall::QueryMonitor => "Failed to get monitor: "@,
        PlatformCall::SetPosition => "Failed to set position: "@,
        PlatformCall::GetPosition => "Failed to get position: "@,
        PlatformCall::Other => Seq::empty(),
    }
}

impl CommandError {
    /// The text that the frontend is shown for this error.
    pub open spec fn message_text(self) -> Seq<char> {
        match self {
            CommandError::MonitorUnavailable => "No monitor found"@,
            CommandError::PlatformError { call, detail } => platform_prefix(call) + detail@,
            CommandError::TrayNotFound => "Tray not found"@,
            CommandError::WindowCreationError { detail } => "Failed to create settings window: "@
                + detail@,
        }
    }

    /// Renders the error as the text that the frontend is shown.
    pub fn message(&self) -> (text: String)
        ensures
            text@ == self.message_text(),
    {
        match self {
            CommandError::MonitorUnavailable => String::from_str("No monitor found"),
            CommandError::PlatformError { call, detail } => {
                let prefix = match call {
                    PlatformCall::QueryMonitor => "Failed to get monitor: ",
                    PlatformCall::SetPosition => "Failed to set position: ",
                    PlatformCall::GetPosition => "Failed to get position: ",
                    PlatformCall::Other => "",
                };
                proof {
                    reveal_strlit("");
                }
                String::from_str(prefix).concat(detail.as_str())
            },
            CommandError::TrayNotFound => String::from_str("Tray not found"),
            CommandError::WindowCreationError { detail } => String::from_str(
                "Failed to create settings window: ",
            ).concat(detail.as_str()),
        }
    }
}

} // verus!
