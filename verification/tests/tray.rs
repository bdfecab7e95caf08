use pet_overlay::click_through::ClickThroughMode;
use pet_overlay::events::{event_name, Notification};
use pet_overlay::geometry::PointerCoordinate;
use pet_overlay::tray::{
    character_slug, preset_percent, tray_directive, PetCharacter, SizePreset, TrayAction,
    WindowRequest,
};

#[test]
fn size_presets_carry_the_fixed_multipliers() {
    assert_eq!(preset_percent(&SizePreset::Tiny), 20);
    assert_eq!(preset_percent(&SizePreset::Small), 40);
    assert_eq!(preset_percent(&SizePreset::Normal), 80);
    assert_eq!(preset_percent(&SizePreset::Large), 150);
    assert_eq!(preset_percent(&SizePreset::Huge), 250);
}

#[test]
fn selecting_the_tiny_size_publishes_exactly_one_scale_event() {
    let d = tray_directive(&TrayAction::SetPetScale(SizePreset::Tiny));
    // Exactly one notification, the scale change to 20% (the 0.2
    // multiplier); no transparency or mode event accompanies it.
    assert_eq!(d.notifications, vec![Notification::PetScaleChanged(20)]);
    assert_eq!(d.select_mode, None);
    assert!(matches!(d.window, WindowRequest::NoRequest));
    assert!(!d.quit);
}

#[test]
fn mode_selections_are_routed_to_the_click_through_machine() {
    for m in [ClickThroughMode::Auto, ClickThroughMode::LockedOn, ClickThroughMode::LockedOff] {
        let d = tray_directive(&TrayAction::SelectMode(m));
        assert_eq!(d.select_mode, Some(m));
        assert!(matches!(d.window, WindowRequest::NoRequest));
        assert!(d.notifications.is_empty());
        assert!(!d.quit);
    }
}

#[test]
fn window_selections_ask_for_the_window_operation_only() {
    let d = tray_directive(&TrayAction::ShowWindow);
    assert!(matches!(d.window, WindowRequest::Show));
    assert_eq!(d.select_mode, None);
    assert!(d.notifications.is_empty());
    assert!(!d.quit);

    let d = tray_directive(&TrayAction::ResetWindow);
    assert!(matches!(d.window, WindowRequest::ResetToPrimary));
    assert_eq!(d.select_mode, None);
    assert!(d.notifications.is_empty());
    assert!(!d.quit);
}

#[test]
fn character_selections_publish_their_one_pet_event() {
    let d = tray_directive(&TrayAction::ChangeCharacter(PetCharacter::StoneGuardian));
    assert_eq!(
        d.notifications,
        vec![Notification::PetCharacterChanged(PetCharacter::StoneGuardian)]
    );
    assert_eq!(d.select_mode, None);

    let d = tray_directive(&TrayAction::AddPet(PetCharacter::IronFistMaster));
    assert_eq!(d.notifications, vec![Notification::PetAdded(PetCharacter::IronFistMaster)]);

    let d = tray_directive(&TrayAction::RemoveLastPet);
    assert_eq!(d.notifications, vec![Notification::PetRemovedLast]);
}

#[test]
fn quit_asks_for_nothing_but_the_exit() {
    let d = tray_directive(&TrayAction::Quit);
    assert!(d.quit);
    assert_eq!(d.select_mode, None);
    assert!(matches!(d.window, WindowRequest::NoRequest));
    assert!(d.notifications.is_empty());
}

#[test]
fn character_slugs_match_the_ui_protocol() {
    assert_eq!(character_slug(&PetCharacter::StoneGuardian), "stone-guardian");
    assert_eq!(character_slug(&PetCharacter::IronFistMaster), "iron-fist-master");
}

#[test]
fn event_names_match_the_ui_protocol() {
    assert_eq!(event_name(&Notification::TransparencyChanged(true)), "click_through_changed");
    assert_eq!(
        event_name(&Notification::ModeChanged(ClickThroughMode::Auto)),
        "click_through_mode_changed"
    );
    assert_eq!(
        event_name(&Notification::PointerClick(PointerCoordinate { x: 0, y: 0 })),
        "mouse_click"
    );
    assert_eq!(
        event_name(&Notification::HookInstallError("boom".to_string())),
        "mouse_hook_error"
    );
    assert_eq!(event_name(&Notification::PetScaleChanged(20)), "pet_scale_changed");
    assert_eq!(
        event_name(&Notification::PetCharacterChanged(PetCharacter::StoneGuardian)),
        "pet_character_changed"
    );
    assert_eq!(event_name(&Notification::PetAdded(PetCharacter::IronFistMaster)), "pet_add");
    assert_eq!(event_name(&Notification::PetRemovedLast), "pet_remove_last");
}
