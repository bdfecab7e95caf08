//! Per-event logic of the global pointer listener and the cursor
//! resolution chain.
//!
//! A long-lived background observer hooks the system-wide pointer stream
//! and hands every raw event to [`handle_pointer_event`], together with
//! the results of the cursor queries available at that moment.  Only
//! primary-button presses produce a notification; the press coordinate is
//! resolved by an ordered chain: the overlay window's own cursor query
//! (physical position plus the window's scale factor, normalized here) is
//! preferred, and a system-wide query is the degraded fallback, taken
//! verbatim without DPI correction.

use vstd::prelude::*;
use crate::events::Notification;
use crate::geometry::{normalize_point, spec_normalize_coord, PointerCoordinate, Scale};

verus! {

/// A pointer button, as the system-wide hook reports it.
#[derive(Clone, Copy, Debug, PartialEq, Eq, Structural)]
pub enum PointerButton {
    /// The primary (left) button, the only one that drives pet behavior.
    Primary,
    Middle,
    Secondary,
}

/// One raw event from the system-wide pointer stream.  Movement and
/// scroll payloads are dropped before this layer: nothing here reads
/// them.
#[derive(Clone, Copy, Debug, PartialEq, Eq, Structural)]
pub enum PointerEvent {
    Press(PointerButton),
    Release(PointerButton),
    Move,
    Scroll,
}

/// Whether an event is a primary-button press; every other event is
/// ignored by the listener.
pub open spec fn spec_is_primary_press(ev: PointerEvent) -> bool {
    ev matches PointerEvent::Press(PointerButton::Primary)
}

/// Tests whether `ev` is a primary-button press.
pub fn is_primary_press(ev: &PointerEvent) -> (b: bool)
    ensures
        b == spec_is_primary_press(*ev),
{
    match ev {
        PointerEvent::Press(PointerButton::Primary) => true,
        _ => false,
    }
}

/// The cursor position as the overlay window's own query reports it:
/// physical coordinates plus the window's scale factor.
#[derive(Clone, Copy, Debug, PartialEq, Eq, Structural)]
pub struct WindowCursor {
    pub x: i32,
    pub y: i32,
    pub scale: Scale,
}

impl WindowCursor {
    /// The scale factor the window reported is positive.
    pub open spec fn valid(self) -> bool {
        self.scale.valid()
    }
}

/// The logical click point of a window cursor query: each physical axis
/// divided by the scale factor, rounded to the nearest integer with ties
/// away from zero.
pub open spec fn spec_window_click(c: WindowCursor) -> PointerCoordinate
    recommends
        c.valid(),
{
    PointerCoordinate {
        x: spec_normalize_coord(c.x as int, c.scale) as i64,
        y: spec_normalize_coord(c.y as int, c.scale) as i64,
    }
}

/// The coordinate used when only the system-wide cursor query answered:
/// its physical point taken verbatim, the known precision gap of the
/// fallback path.
pub fn system_cursor_coordinate(x: i32, y: i32) -> (r: PointerCoordinate)
    ensures
        r == (PointerCoordinate { x: x as i64, y: y as i64 }),
{
    PointerCoordinate { x: x as i64, y: y as i64 }
}

/// The resolution chain: the first capability that answered, in order.
/// The window query wins whenever it answered; the system-wide result is
/// consulted only without one; with neither there is no coordinate.
pub open spec fn spec_resolve_cursor(
    window: Option<WindowCursor>,
    system: Option<PointerCoordinate>,
) -> Option<PointerCoordinate> {
    match window {
        Some(c) => Some(spec_window_click(c)),
        None => system,
    }
}

/// Resolves a click coordinate from the available cursor queries, window
/// query first.
pub fn resolve_cursor(window: &Option<WindowCursor>, system: &Option<PointerCoordinate>) -> (r:
    Option<PointerCoordinate>)
    requires
        *window matches Some(c) ==> c.valid(),
    ensures
        r == spec_resolve_cursor(*window, *system),
{
    match window {
        Some(c) => Some(normalize_point(c.x, c.y, &c.scale)),
        None => *system,
    }
}

/// The notification owed for one raw pointer event: a click notification
/// at the resolved coordinate for a primary-button press that could be
/// resolved, nothing for any other event or when neither query answered.
pub open spec fn spec_handle_pointer_event(
    ev: PointerEvent,
    window: Option<WindowCursor>,
    system: Option<PointerCoordinate>,
) -> Option<Notification> {
    if spec_is_primary_press(ev) {
        match spec_resolve_cursor(window, system) {
            Some(p) => Some(Notification::PointerClick(p)),
            None => None,
        }
    } else {
        None
    }
}

/// Decides what one raw pointer event publishes.  `window` and `system`
/// are the answers of the two cursor queries for this event; the
/// system-wide query need only be made when the window query gave none.
pub fn handle_pointer_event(
    ev: &PointerEvent,
    window: &Option<WindowCursor>,
    system: &Option<PointerCoordinate>,
) -> (r: Option<Notification>)
    requires
        *window matches Some(c) ==> c.valid(),
    ensures
        r == spec_handle_pointer_event(*ev, *window, *system),
{
    if is_primary_press(ev) {
        match resolve_cursor(window, system) {
            Some(p) => Some(Notification::PointerClick(p)),
            None => None,
        }
    } else {
        None
    }
}

/// The one report owed when installing the global hook was attempted:
/// a hook-install-error notification carrying the failure message, or
/// nothing when the hook attached.  After a failure the listener exits
/// its loop; the rest of the application stays usable.
pub fn hook_install_report(install_error: Option<String>) -> (r: Option<Notification>)
    ensures
        install_error matches Some(msg) ==> r == Some(Notification::HookInstallError(msg)),
        install_error is None ==> r is None,
{
    match install_error {
        Some(msg) => Some(Notification::HookInstallError(msg)),
        None => None,
    }
}

} // verus!
