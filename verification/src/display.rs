//! Monitor enumeration results and window placement.
//!
//! The operating system reports each monitor in raw physical pixels with
//! its own scale factor; everything handed onward is normalized to
//! logical units here.  This module also fixes the startup placement
//! policy and the error semantics of the two-call bounds update.

use vstd::prelude::*;
use vstd::math::abs;
use crate::geometry::{
    lemma_coord_product_bounds, lemma_extent_product_bounds, lemma_normalize_round_trip,
    lemma_round_div_away_props, normalize_coord, normalize_extent, spec_normalize_coord, Scale,
};

verus! {

/// One monitor as the operating system reports it: physical origin and
/// extent, plus that monitor's own scale factor.
#[derive(Clone, Copy, Debug, PartialEq, Eq, Structural)]
pub struct PhysicalMonitor {
    pub x: i32,
    pub y: i32,
    pub width: u32,
    pub height: u32,
    pub scale: Scale,
}

impl PhysicalMonitor {
    /// The scale factor the operating system reported is positive.
    pub open spec fn valid(self) -> bool {
        self.scale.valid()
    }
}

/// One monitor in logical units, as handed to the UI layer.
#[derive(Clone, Copy, Debug, PartialEq, Eq, Structural)]
pub struct MonitorDescriptor {
    pub x: i64,
    pub y: i64,
    pub width: u64,
    pub height: u64,
}

/// The logical descriptor of a physical monitor: every coordinate and
/// extent divided by the monitor's own scale factor, rounded to the
/// nearest integer with ties away from zero.
pub open spec fn spec_normalize_monitor(m: PhysicalMonitor) -> MonitorDescriptor
    recommends
        m.valid(),
{
    MonitorDescriptor {
        x: spec_normalize_coord(m.x as int, m.scale) as i64,
        y: spec_normalize_coord(m.y as int, m.scale) as i64,
        width: spec_normalize_coord(m.width as int, m.scale) as u64,
        height: spec_normalize_coord(m.height as int, m.scale) as u64,
    }
}

/// Normalizes one monitor to logical units.
pub fn normalize_monitor(m: &PhysicalMonitor) -> (d: MonitorDescriptor)
    requires
        m.valid(),
    ensures
        d == spec_normalize_monitor(*m),
{
    MonitorDescriptor {
        x: normalize_coord(m.x, &m.scale),
        y: normalize_coord(m.y, &m.scale),
        width: normalize_extent(m.width, &m.scale),
        height: normalize_extent(m.height, &m.scale),
    }
}

/// Round trip of monitor normalization: scaling each logical coordinate
/// and extent of the descriptor back by the monitor's scale factor
/// `num / den` lands within half a logical unit of the physical value on
/// every axis.  The inequalities are stated with denominators cleared:
/// with `d` the descriptor, `2 * |d.x * num - x * den| <= num` is
/// `|d.x * (num / den) - x| <= (num / den) / 2`.
pub proof fn lemma_monitor_round_trip(m: PhysicalMonitor)
    requires
        m.valid(),
    ensures
        2 * abs(spec_normalize_monitor(m).x * m.scale.num - m.x * m.scale.den) <= m.scale.num,
        2 * abs(spec_normalize_monitor(m).y * m.scale.num - m.y * m.scale.den) <= m.scale.num,
        2 * abs(spec_normalize_monitor(m).width * m.scale.num - m.width * m.scale.den)
            <= m.scale.num,
        2 * abs(spec_normalize_monitor(m).height * m.scale.num - m.height * m.scale.den)
            <= m.scale.num,
{
    let s = m.scale;
    lemma_coord_product_bounds(m.x as int, s.den as int);
    lemma_round_div_away_props(m.x as int * s.den as int, s.num as int);
    lemma_normalize_round_trip(m.x as int, s);
    lemma_coord_product_bounds(m.y as int, s.den as int);
    lemma_round_div_away_props(m.y as int * s.den as int, s.num as int);
    lemma_normalize_round_trip(m.y as int, s);
    lemma_extent_product_bounds(m.width as int, s.den as int);
    lemma_round_div_away_props(m.width as int * s.den as int, s.num as int);
    lemma_normalize_round_trip(m.width as int, s);
    lemma_extent_product_bounds(m.height as int, s.den as int);
    lemma_round_div_away_props(m.height as int * s.den as int, s.num as int);
    lemma_normalize_round_trip(m.height as int, s);
}

/// Normalizes a whole monitor enumeration, keeping the operating system's
/// enumeration order.  Zero attached displays give an empty sequence.
pub fn list_monitors(monitors: &Vec<PhysicalMonitor>) -> (r: Vec<MonitorDescriptor>)
    requires
        forall|i: int| 0 <= i < monitors@.len() ==> (#[trigger] monitors@[i]).valid(),
    ensures
        r@.len() == monitors@.len(),
        forall|i: int| 0 <= i < monitors@.len() ==> #[trigger] r@[i] == spec_normalize_monitor(
            monitors@[i],
        ),
{
    let mut out: Vec<MonitorDescriptor> = Vec::new();
    let mut idx: usize = 0;
    while idx < monitors.len()
        invariant
            idx <= monitors@.len(),
            out@.len() == idx,
            forall|i: int| 0 <= i < monitors@.len() ==> (#[trigger] monitors@[i]).valid(),
            forall|i: int| 0 <= i < idx ==> #[trigger] out@[i] == spec_normalize_monitor(
                monitors@[i],
            ),
        decreases monitors@.len() - idx,
    {
        out.push(normalize_monitor(&monitors[idx]));
        idx += 1;
    }
    out
}

/// Normalizes the primary monitor, if the operating system reports one.
/// A headless or disconnected system reports none, and none is returned.
pub fn primary_monitor(primary: &Option<PhysicalMonitor>) -> (r: Option<MonitorDescriptor>)
    requires
        *primary matches Some(m) ==> m.valid(),
    ensures
        r is Some <==> *primary is Some,
        *primary matches Some(m) ==> r == Some(spec_normalize_monitor(m)),
{
    match primary {
        Some(m) => Some(normalize_monitor(m)),
        None => None,
    }
}

/// Startup placement policy: with a primary monitor present the overlay
/// is moved and resized to exactly match it (a full-screen overlay across
/// the primary display); without one the window keeps its default bounds.
pub fn startup_bounds(primary: &Option<MonitorDescriptor>) -> (r: Option<MonitorDescriptor>)
    ensures
        r == *primary,
{
    match primary {
        Some(d) => Some(*d),
        None => None,
    }
}

/// The window call of a bounds update that failed.
#[derive(Clone, Copy, Debug, PartialEq, Eq, Structural)]
pub enum BoundsCall {
    Position,
    Size,
}

/// Failure of a bounds update: the call that failed and the message the
/// operating system gave.
#[derive(Clone, Debug, PartialEq, Eq)]
pub struct WindowBoundsError {
    pub failed: BoundsCall,
    pub message: String,
}

/// Combines the outcomes of the two sequential window calls of a bounds
/// update: position first, then size, where the size call is only made
/// when the position call succeeded (`size_error` is ignored otherwise).
/// No rollback is attempted, so on failure the window may be left with
/// only its position or only its size updated; the error names the call
/// that failed.
pub fn window_bounds_outcome(position_error: Option<String>, size_error: Option<String>) -> (r:
    Result<(), WindowBoundsError>)
    ensures
        position_error matches Some(msg) ==> r == Err::<(), WindowBoundsError>(
            (WindowBoundsError { failed: BoundsCall::Position, message: msg }),
        ),
        position_error is None ==> (size_error matches Some(msg) ==> r == Err::<(), WindowBoundsError>(
            (WindowBoundsError { failed: BoundsCall::Size, message: msg }),
        )),
        position_error is None && size_error is None ==> r is Ok,
{
    match position_error {
        Some(msg) => Err(WindowBoundsError { failed: BoundsCall::Position, message: msg }),
        None => match size_error {
            Some(msg) => Err(WindowBoundsError { failed: BoundsCall::Size, message: msg }),
            None => Ok(()),
        },
    }
}

} // verus!
