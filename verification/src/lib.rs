//! Decision logic of a tray-based timer: where the timer window goes by
//! default, what the tray menu holds, what each menu entry does when it is
//! activated, and when the preset-settings window is created.
//!
//! Nothing here touches a window system. Callers hand in plain values that
//! they read from the platform and carry out the actions that come back.

pub mod decimal;
pub mod dispatch;
pub mod error;
pub mod menu;
pub mod position;
pub mod preset;
pub mod settings_window;
pub mod shortcut;
pub mod text;
pub mod theme;
