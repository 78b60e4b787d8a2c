use decorum::commands::{set_window_buttons_inset, show_snap_overlay_plan, DecorumError};
use decorum::geometry::Inset;
use decorum::input::{InputStep, SnapKey};
use decorum::registry::WindowButtonsInsetsState;

#[test]
fn snap_overlay_plan_on_supported_platform_is_the_chord() {
    let steps = show_snap_overlay_plan(true);
    assert_eq!(steps.len(), 7);
    assert_eq!(steps[0], InputStep::Press(SnapKey::Modifier));
    assert_eq!(steps[6], InputStep::Release(SnapKey::Modifier));
}

#[test]
fn snap_overlay_plan_on_unsupported_platform_is_a_noop() {
    assert!(show_snap_overlay_plan(false).is_empty());
}

#[test]
fn inset_command_without_target_applies_to_the_current_window() {
    let mut registry = WindowButtonsInsetsState::new();
    let open = vec!["main".to_string(), "settings".to_string()];
    let first = set_window_buttons_inset(
        &mut registry,
        &open,
        &"main".to_string(),
        &None,
        Some(Inset { x: 20, y: 30 }),
    )
    .unwrap();
    assert!(first);
    assert_eq!(registry.get(&"main".to_string()), Inset { x: 20, y: 30 });
}

#[test]
fn inset_command_resolves_a_target_label() {
    let mut registry = WindowButtonsInsetsState::new();
    let open = vec!["main".to_string(), "settings".to_string()];
    set_window_buttons_inset(
        &mut registry,
        &open,
        &"main".to_string(),
        &Some("settings".to_string()),
        Some(Inset { x: 1, y: 2 }),
    )
    .unwrap();
    assert_eq!(registry.get(&"settings".to_string()), Inset { x: 1, y: 2 });
}

#[test]
fn inset_command_rejects_an_unknown_target() {
    let mut registry = WindowButtonsInsetsState::new();
    let open = vec!["main".to_string()];
    let r = set_window_buttons_inset(
        &mut registry,
        &open,
        &"main".to_string(),
        &Some("ghost".to_string()),
        Some(Inset { x: 1, y: 2 }),
    );
    assert_eq!(r, Err(DecorumError::HandleResolution));
    assert!(registry.entry(&"ghost".to_string()).is_none());
}

#[test]
fn second_write_is_not_a_first_write() {
    let mut registry = WindowButtonsInsetsState::new();
    let open = vec!["main".to_string()];
    let label = "main".to_string();
    assert!(set_window_buttons_inset(&mut registry, &open, &label, &None, None).unwrap());
    assert!(!set_window_buttons_inset(&mut registry, &open, &label, &None, None).unwrap());
}

#[test]
fn error_messages_name_the_failure() {
    assert_eq!(
        DecorumError::HandleResolution.message(),
        "window handle could not be resolved"
    );
    assert_eq!(
        DecorumError::InputInjection.message(),
        "synthetic input injection failed"
    );
    assert_eq!(
        DecorumError::ThreadMarshal.message(),
        "could not marshal work onto the main thread"
    );
}
