//! Notifications published to the external UI layer.
//!
//! Everything the core tells the UI goes through one fire-and-forget
//! channel; these are the values it carries.  Coordinates are always in
//! logical units: no physical-pixel value is ever emitted externally.

use vstd::prelude::*;
use crate::click_through::ClickThroughMode;
use crate::geometry::PointerCoordinate;
use crate::tray::PetCharacter;

verus! {

/// One notification pushed to the UI layer.
///
/// Pet-behavior notifications (`PetScaleChanged` and the character ones)
/// are relayed from tray-menu selections; their payload semantics belong
/// to the pet layer.  The scale is carried as a percentage, an exact
/// integer form of the preset multipliers.
#[derive(Clone, Debug, PartialEq, Eq)]
pub enum Notification {
    /// The input-transparency boolean applied to the overlay changed.
    TransparencyChanged(bool),
    /// The click-through mode changed.
    ModeChanged(ClickThroughMode),
    /// A primary-button press was observed, at this logical coordinate.
    PointerClick(PointerCoordinate),
    /// The global pointer hook could not be installed; the message
    /// describes the failure.
    HookInstallError(String),
    /// The pet sprite scale changed, in percent of its natural size.
    PetScaleChanged(u32),
    /// The active pet character changed.
    PetCharacterChanged(PetCharacter),
    /// A pet of this character was added.
    PetAdded(PetCharacter),
    /// The last added pet was removed.
    PetRemovedLast,
}

/// The name of the UI-layer channel that carries a notification.
pub open spec fn spec_event_name(n: Notification) -> Seq<char> {
    match n {
        Notification::TransparencyChanged(_) => "click_through_changed"@,
        Notification::ModeChanged(_) => "click_through_mode_changed"@,
        Notification::PointerClick(_) => "mouse_click"@,
        Notification::HookInstallError(_) => "mouse_hook_error"@,
        Notification::PetScaleChanged(_) => "pet_scale_changed"@,
        Notification::PetCharacterChanged(_) => "pet_character_changed"@,
        Notification::PetAdded(_) => "pet_add"@,
        Notification::PetRemovedLast => "pet_remove_last"@,
    }
}

/// Returns the name of the UI-layer channel that carries `n`.
pub fn event_name(n: &Notification) -> (r: &'static str)
    ensures
        r@ == spec_event_name(*n),
{
    match n {
        Notification::TransparencyChanged(_) => "click_through_changed",
        Notification::ModeChanged(_) => "click_through_mode_changed",
        Notification::PointerClick(_) => "mouse_click",
        Notification::HookInstallError(_) => "mouse_hook_error",
        Notification::PetScaleChanged(_) => "pet_scale_changed",
        Notification::PetCharacterChanged(_) => "pet_character_changed",
        Notification::PetAdded(_) => "pet_add",
        Notification::PetRemovedLast => "pet_remove_last",
    }
}

} // verus!
