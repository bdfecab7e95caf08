//! The click-through state machine.
//!
//! The overlay window either receives pointer input or lets the operating
//! system pass it through to whatever is beneath.  A three-way mode tracks
//! user intent and collapses to the single boolean the window attribute
//! takes; a raw side channel can set that boolean directly, bypassing the
//! mode.
//!
//! Mutating the window attribute is an operating-system call that can
//! fail, so every transition is split in two: the caller first asks which
//! boolean to apply ([`passthrough_of`]), performs the call, and commits
//! the stored state only on success ([`ClickThroughController::commit_select`],
//! [`ClickThroughController::commit_raw`]).  Committing only after the
//! call keeps the stored boolean equal to what the window reports.

use vstd::prelude::*;
use crate::events::Notification;

verus! {

/// User/tray intent for click-through behavior.
///
/// `Auto` and `LockedOn` both pass input through; `LockedOff` keeps it.
#[derive(Clone, Copy, Debug, PartialEq, Eq, Structural)]
pub enum ClickThroughMode {
    Auto,
    LockedOn,
    LockedOff,
}

/// The effective input-transparency boolean of a mode.
pub open spec fn spec_passthrough(m: ClickThroughMode) -> bool {
    match m {
        ClickThroughMode::Auto => true,
        ClickThroughMode::LockedOn => true,
        ClickThroughMode::LockedOff => false,
    }
}

/// Computes the boolean to apply to the window for mode `m`.
pub fn passthrough_of(m: &ClickThroughMode) -> (b: bool)
    ensures
        b == spec_passthrough(*m),
{
    match m {
        ClickThroughMode::Auto => true,
        ClickThroughMode::LockedOn => true,
        ClickThroughMode::LockedOff => false,
    }
}

/// Every mode maps to its documented effective boolean: `Auto` and
/// `LockedOn` enable pass-through, `LockedOff` disables it.
pub proof fn lemma_mode_flag_mapping()
    ensures
        spec_passthrough(ClickThroughMode::Auto) == true,
        spec_passthrough(ClickThroughMode::LockedOn) == true,
        spec_passthrough(ClickThroughMode::LockedOff) == false,
{
}

/// The label under which a mode is announced to the UI layer.
pub open spec fn spec_mode_label(m: ClickThroughMode) -> Seq<char> {
    match m {
        ClickThroughMode::Auto => "auto"@,
        ClickThroughMode::LockedOn => "locked_on"@,
        ClickThroughMode::LockedOff => "locked_off"@,
    }
}

/// Returns the label under which mode `m` is announced to the UI layer.
pub fn mode_label(m: &ClickThroughMode) -> (r: &'static str)
    ensures
        r@ == spec_mode_label(*m),
{
    match m {
        ClickThroughMode::Auto => "auto",
        ClickThroughMode::LockedOn => "locked_on",
        ClickThroughMode::LockedOff => "locked_off",
    }
}

/// Owner of the process-wide click-through state: the stored mode and the
/// boolean last applied to the window.
///
/// `applied` mirrors the window's input-transparency attribute as long as
/// callers commit a transition only after the window call succeeded.
#[derive(Clone, Copy, Debug, PartialEq, Eq, Structural)]
pub struct ClickThroughController {
    pub mode: ClickThroughMode,
    pub applied: bool,
}

impl ClickThroughController {
    /// The state after a committed mode selection.
    pub open spec fn spec_select(self, m: ClickThroughMode) -> Self {
        ClickThroughController { mode: m, applied: spec_passthrough(m) }
    }

    /// The state after a committed raw override: the boolean is set, the
    /// stored mode is deliberately left alone.
    pub open spec fn spec_set_raw(self, enabled: bool) -> Self {
        ClickThroughController { applied: enabled, ..self }
    }

    /// The initial state.  The configured default is automatic mode with
    /// input passed through, so the freshly shown overlay never blocks
    /// clicks meant for other applications.
    pub fn new() -> (c: Self)
        ensures
            c == (ClickThroughController { mode: ClickThroughMode::Auto, applied: true }),
    {
        ClickThroughController { mode: ClickThroughMode::Auto, applied: true }
    }

    /// Pure read of the currently applied boolean; never fails.
    pub fn get_raw(&self) -> (b: bool)
        ensures
            b == self.applied,
    {
        self.applied
    }

    /// Commits a successful mode selection and returns, in publication
    /// order, exactly the two notifications it owes the UI layer: the new
    /// effective boolean, then the new mode.
    ///
    /// Call only after the window accepted the boolean
    /// `passthrough_of(&m)`; a failed window call commits nothing.
    pub fn commit_select(&mut self, m: ClickThroughMode) -> (notes: Vec<Notification>)
        ensures
            *final(self) == old(self).spec_select(m),
            notes@.len() == 2,
            notes@[0] == Notification::TransparencyChanged(spec_passthrough(m)),
            notes@[1] == Notification::ModeChanged(m),
    {
        let enabled = passthrough_of(&m);
        self.mode = m;
        self.applied = enabled;
        let mut notes: Vec<Notification> = Vec::new();
        notes.push(Notification::TransparencyChanged(enabled));
        notes.push(Notification::ModeChanged(m));
        notes
    }

    /// Commits a successful raw override of the applied boolean, without
    /// touching the stored mode.
    ///
    /// Call only after the window accepted `enabled`; a failed window
    /// call commits nothing.  This side channel intentionally lets the
    /// boolean and the mode disagree.
    pub fn commit_raw(&mut self, enabled: bool)
        ensures
            *final(self) == old(self).spec_set_raw(enabled),
    {
        self.applied = enabled;
    }
}

/// Mode-transition consistency: after a committed selection of any mode,
/// the stored mode is that mode and the applied boolean is exactly its
/// documented effective boolean.
pub proof fn lemma_select_consistency(c: ClickThroughController, m: ClickThroughMode)
    ensures
        c.spec_select(m).mode == m,
        c.spec_select(m).applied == spec_passthrough(m),
{
}

/// Raw override semantics: after a committed raw override the applied
/// boolean reads back as what was set, whatever mode is stored, and the
/// stored mode is unchanged.
pub proof fn lemma_raw_override(c: ClickThroughController, enabled: bool)
    ensures
        c.spec_set_raw(enabled).applied == enabled,
        c.spec_set_raw(enabled).mode == c.mode,
{
}

} // verus!
