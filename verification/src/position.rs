use crate::error::{CommandError, PlatformCall};
use vstd::prelude::*;

verus! {

/// Width, in pixels, that the timer window is assumed to have.
pub const WINDOW_WIDTH: u32 = 400;

/// Height, in pixels, that the timer window is assumed to have.
pub const WINDOW_HEIGHT: u32 = 48;

/// A point on the screen, in pixels.
#[derive(Clone, Copy, Debug, PartialEq, Eq, Structural)]
pub struct WindowPosition {
    pub x: i64,
    pub y: i64,
}

/// Size and origin of a monitor, in pixels.
#[derive(Clone, Copy, Debug, PartialEq, Eq, Structural)]
pub struct MonitorGeometry {
    pub width: u32,
    pub height: u32,
    pub x: i32,
    pub y: i32,
}

/// The quotient of `a` by a positive `b`, rounded toward zero.
pub open spec fn div_toward_zero(a: int, b: int) -> int
    recommends
        b > 0,
{
    if a >= 0 {
        a / b
    } else {
        -((-a) / b)
    }
}

/// The horizontal coordinate that centres the timer window on a monitor of
/// the given width whose left edge is at `origin_x`.
pub open spec fn default_x(origin_x: int, width: int) -> int {
    origin_x + div_toward_zero(width - WINDOW_WIDTH, 2)
}

/// The vertical coordinate that puts the timer window's lower edge on the
/// lower edge of a monitor of the given height whose top is at `origin_y`.
pub open spec fn default_y(origin_y: int, height: int) -> int {
    origin_y + height - WINDOW_HEIGHT
}

impl WindowPosition {
    /// The position with the coordinates that the platform reported.
    pub fn from_physical(x: i32, y: i32) -> (position: WindowPosition)
        ensures
            position.x == x,
            position.y == y,
    {
        WindowPosition { x: x as i64, y: y as i64 }
    }
}

/// Where the timer window goes on `monitor`: centred horizontally, its lower
/// edge on the monitor's lower edge.
pub fn default_position(monitor: MonitorGeometry) -> (position: WindowPosition)
    ensures
        position.x == default_x(monitor.x as int, monitor.width as int),
        position.y == default_y(monitor.y as int, monitor.height as int),
{
    let x: i64 = monitor.x as i64 + (monitor.width as i64 - WINDOW_WIDTH as i64) / 2;
    let y: i64 = monitor.y as i64 + monitor.height as i64 - WINDOW_HEIGHT as i64;
    WindowPosition { x, y }
}

/// The default position of the timer window, given the primary monitor if the
/// platform found one.
pub fn get_default_position(monitor: Option<MonitorGeometry>) -> (result: Result<
    WindowPosition,
    CommandError,
>)
    ensures
        monitor is None ==> result == Err::<WindowPosition, CommandError>(
            CommandError::MonitorUnavailable,
        ),
        monitor matches Some(m) ==> (result matches Ok(position) && position.x == default_x(
            m.x as int,
            m.width as int,
        ) && position.y == default_y(m.y as int, m.height as int)),
{
    match monitor {
        None => Err(CommandError::MonitorUnavailable),
        Some(m) => Ok(default_position(m)),
    }
}

/// The window's position, given the platform's answer to a query of its
/// outer position: the coordinates, or the platform's text for why it has
/// none.
pub fn get_window_position(outer: Result<(i32, i32), String>) -> (result: Result<
    WindowPosition,
    CommandError,
>)
    ensures
        outer matches Ok(at) ==> (result matches Ok(position) && position.x == at.0 && position.y
            == at.1),
        outer matches Err(detail) ==> (result matches Err(
            CommandError::PlatformError { call, detail: told },
        ) && call == PlatformCall::GetPosition && told@ == detail@),
{
    match outer {
        Ok((x, y)) => Ok(WindowPosition::from_physical(x, y)),
        Err(detail) => Err(CommandError::PlatformError { call: PlatformCall::GetPosition, detail }),
    }
}

} // verus!
