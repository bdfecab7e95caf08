//! Routing of tray-menu selections.
//!
//! The tray menu itself (item construction, labels) is an external
//! collaborator; it hands each selection to [`tray_directive`], which
//! decides what the application must do: route a mode change into the
//! click-through machine, request a window operation, publish pet-behavior
//! notifications, or quit.

use vstd::prelude::*;
use crate::click_through::ClickThroughMode;
use crate::events::Notification;

verus! {

/// A pet character selectable from the tray.
#[derive(Clone, Copy, Debug, PartialEq, Eq, Structural)]
pub enum PetCharacter {
    StoneGuardian,
    IronFistMaster,
}

/// The identifier under which a character is announced to the UI layer.
pub open spec fn spec_character_slug(c: PetCharacter) -> Seq<char> {
    match c {
        PetCharacter::StoneGuardian => "stone-guardian"@,
        PetCharacter::IronFistMaster => "iron-fist-master"@,
    }
}

/// Returns the identifier under which character `c` is announced.
pub fn character_slug(c: &PetCharacter) -> (r: &'static str)
    ensures
        r@ == spec_character_slug(*c),
{
    match c {
        PetCharacter::StoneGuardian => "stone-guardian",
        PetCharacter::IronFistMaster => "iron-fist-master",
    }
}

/// A pet size preset offered by the tray menu.
#[derive(Clone, Copy, Debug, PartialEq, Eq, Structural)]
pub enum SizePreset {
    Tiny,
    Small,
    Normal,
    Large,
    Huge,
}

/// The fixed scale multiplier of a preset, in percent of natural size.
pub open spec fn spec_preset_percent(p: SizePreset) -> u32 {
    match p {
        SizePreset::Tiny => 20,
        SizePreset::Small => 40,
        SizePreset::Normal => 80,
        SizePreset::Large => 150,
        SizePreset::Huge => 250,
    }
}

/// Returns the scale multiplier of preset `p`, in percent.
pub fn preset_percent(p: &SizePreset) -> (r: u32)
    ensures
        r == spec_preset_percent(*p),
{
    match p {
        SizePreset::Tiny => 20,
        SizePreset::Small => 40,
        SizePreset::Normal => 80,
        SizePreset::Large => 150,
        SizePreset::Huge => 250,
    }
}

/// One selection made in the tray menu.
#[derive(Clone, Copy, Debug, PartialEq, Eq, Structural)]
pub enum TrayAction {
    /// Select a click-through mode.
    SelectMode(ClickThroughMode),
    /// Show and focus the overlay window.
    ShowWindow,
    /// Move the overlay window back onto the primary monitor.
    ResetWindow,
    /// Change the pet sprite scale to a preset.
    SetPetScale(SizePreset),
    /// Switch the active pet character.
    ChangeCharacter(PetCharacter),
    /// Add one more pet of a character.
    AddPet(PetCharacter),
    /// Remove the last added pet.
    RemoveLastPet,
    /// Exit the application.
    Quit,
}

/// The window operation a tray selection asks for.
#[derive(Clone, Copy, Debug, PartialEq, Eq, Structural)]
pub enum WindowRequest {
    /// No window operation.
    NoRequest,
    /// Show the window, focus it and keep it on top.
    Show,
    /// Place the window to cover the primary monitor again, then show
    /// and focus it.
    ResetToPrimary,
}

/// What the application must do in response to one tray selection.
///
/// A mode selection is routed through the click-through machine (which
/// publishes its own two notifications on success); everything else is a
/// window request, a quit request, or notifications published directly.
pub struct TrayDirective {
    /// The mode to route into the click-through machine, if any.
    pub select_mode: Option<ClickThroughMode>,
    /// The window operation to perform, if any.
    pub window: WindowRequest,
    /// The notifications to publish directly, in order.
    pub notifications: Vec<Notification>,
    /// Whether the application must exit.
    pub quit: bool,
}

/// The directive owed for each tray selection.
///
/// A pet-behavior selection publishes exactly its one pet notification:
/// no transparency or mode notification accompanies it, and no window
/// operation happens.
pub open spec fn spec_tray_directive_ok(action: TrayAction, d: TrayDirective) -> bool {
    match action {
        TrayAction::SelectMode(m) => {
            &&& d.select_mode == Some(m)
            &&& d.window is NoRequest
            &&& d.notifications@ =~= Seq::<Notification>::empty()
            &&& !d.quit
        },
        TrayAction::ShowWindow => {
            &&& d.select_mode is None
            &&& d.window is Show
            &&& d.notifications@ =~= Seq::<Notification>::empty()
            &&& !d.quit
        },
        TrayAction::ResetWindow => {
            &&& d.select_mode is None
            &&& d.window is ResetToPrimary
            &&& d.notifications@ =~= Seq::<Notification>::empty()
            &&& !d.quit
        },
        TrayAction::SetPetScale(p) => {
            &&& d.select_mode is None
            &&& d.window is NoRequest
            &&& d.notifications@ =~= seq![Notification::PetScaleChanged(spec_preset_percent(p))]
            &&& !d.quit
        },
        TrayAction::ChangeCharacter(c) => {
            &&& d.select_mode is None
            &&& d.window is NoRequest
            &&& d.notifications@ =~= seq![Notification::PetCharacterChanged(c)]
            &&& !d.quit
        },
        TrayAction::AddPet(c) => {
            &&& d.select_mode is None
            &&& d.window is NoRequest
            &&& d.notifications@ =~= seq![Notification::PetAdded(c)]
            &&& !d.quit
        },
        TrayAction::RemoveLastPet => {
            &&& d.select_mode is None
            &&& d.window is NoRequest
            &&& d.notifications@ =~= seq![Notification::PetRemovedLast]
            &&& !d.quit
        },
        TrayAction::Quit => {
            &&& d.select_mode is None
            &&& d.window is NoRequest
            &&& d.notifications@ =~= Seq::<Notification>::empty()
            &&& d.quit
        },
    }
}

/// Decides what the application must do for tray selection `action`.
pub fn tray_directive(action: &TrayAction) -> (d: TrayDirective)
    ensures
        spec_tray_directive_ok(*action, d),
{
    match action {
        TrayAction::SelectMode(m) => TrayDirective {
            select_mode: Some(*m),
            window: WindowRequest::NoRequest,
            notifications: Vec::new(),
            quit: false,
        },
        TrayAction::ShowWindow => TrayDirective {
            select_mode: None,
            window: WindowRequest::Show,
            notifications: Vec::new(),
            quit: false,
        },
        TrayAction::ResetWindow => TrayDirective {
            select_mode: None,
            window: WindowRequest::ResetToPrimary,
            notifications: Vec::new(),
            quit: false,
        },
        TrayAction::SetPetScale(p) => {
            let mut notes: Vec<Notification> = Vec::new();
            notes.push(Notification::PetScaleChanged(preset_percent(p)));
            TrayDirective {
                select_mode: None,
                window: WindowRequest::NoRequest,
                notifications: notes,
                quit: false,
            }
        },
        TrayAction::ChangeCharacter(c) => {
            let mut notes: Vec<Notification> = Vec::new();
            notes.push(Notification::PetCharacterChanged(*c));
            TrayDirective {
                select_mode: None,
                window: WindowRequest::NoRequest,
                notifications: notes,
                quit: false,
            }
        },
        TrayAction::AddPet(c) => {
            let mut notes: Vec<Notification> = Vec::new();
            notes.push(Notification::PetAdded(*c));
            TrayDirective {
                select_mode: None,
                window: WindowRequest::NoRequest,
                notifications: notes,
                quit: false,
            }
        },
        TrayAction::RemoveLastPet => {
            let mut notes: Vec<Notification> = Vec::new();
            notes.push(Notification::PetRemovedLast);
            TrayDirective {
                select_mode: None,
                window: WindowRequest::NoRequest,
                notifications: notes,
                quit: false,
            }
        },
        TrayAction::Quit => TrayDirective {
            select_mode: None,
            window: WindowRequest::NoRequest,
            notifications: Vec::new(),
            quit: true,
        },
    }
}

} // verus!
