use decorum::geometry::{Frame, Inset, WindowMetrics};
use decorum::registry::{
    update_window_controls_inset, WindowButtonsInsetsState, DEFAULT_TRAFFIC_LIGHTS_INSET_X,
    DEFAULT_TRAFFIC_LIGHTS_INSET_Y,
};

fn metrics() -> WindowMetrics {
    WindowMetrics {
        window_height: 600,
        title_bar: Frame { x: 0, y: 572, width: 800, height: 28 },
        close: Some(Frame { x: 7, y: 6, width: 14, height: 16 }),
        miniaturize: Some(Frame { x: 27, y: 6, width: 14, height: 16 }),
        zoom: Some(Frame { x: 47, y: 6, width: 14, height: 16 }),
    }
}

#[test]
fn get_returns_default_for_unknown_label() {
    let state = WindowButtonsInsetsState::new();
    let inset = state.get(&"main".to_string());
    assert_eq!(inset.x, DEFAULT_TRAFFIC_LIGHTS_INSET_X);
    assert_eq!(inset.y, DEFAULT_TRAFFIC_LIGHTS_INSET_Y);
}

#[test]
fn set_then_get_returns_override() {
    let mut state = WindowButtonsInsetsState::new();
    state.set(&"main".to_string(), Some(Inset { x: 20, y: 30 }));
    let inset = state.get(&"main".to_string());
    assert_eq!(inset.x, 20);
    assert_eq!(inset.y, 30);
}

#[test]
fn clearing_reverts_to_default() {
    let mut state = WindowButtonsInsetsState::new();
    state.set(&"main".to_string(), Some(Inset { x: 20, y: 30 }));
    state.set(&"main".to_string(), None);
    let inset = state.get(&"main".to_string());
    assert_eq!(inset.x, DEFAULT_TRAFFIC_LIGHTS_INSET_X);
    assert_eq!(inset.y, DEFAULT_TRAFFIC_LIGHTS_INSET_Y);
}

#[test]
fn first_write_is_reported_once_per_label() {
    let mut state = WindowButtonsInsetsState::new();
    assert!(state.set(&"main".to_string(), Some(Inset { x: 20, y: 30 })));
    assert!(!state.set(&"main".to_string(), Some(Inset { x: 5, y: 5 })));
    assert!(!state.set(&"main".to_string(), None));
    assert!(state.set(&"other".to_string(), None));
}

#[test]
fn resize_uses_override_and_reverts_after_clear() {
    // Set the inset to (20, 30) for "main" and trigger a resize: the close
    // control lands at x = 20. Clear the override and resize again: it
    // reverts to the default inset.
    let mut state = WindowButtonsInsetsState::new();
    state.set(&"main".to_string(), Some(Inset { x: 20, y: 30 }));
    let m = metrics();
    let r = update_window_controls_inset(&state, &"main".to_string(), &m).unwrap();
    assert_eq!(r.close.unwrap().x, 20);

    state.set(&"main".to_string(), None);
    let r = update_window_controls_inset(&state, &"main".to_string(), &m).unwrap();
    assert_eq!(r.close.unwrap().x, DEFAULT_TRAFFIC_LIGHTS_INSET_X);
}

#[test]
fn window_without_entry_is_skipped() {
    let state = WindowButtonsInsetsState::new();
    let m = metrics();
    assert!(update_window_controls_inset(&state, &"main".to_string(), &m).is_none());
}

#[test]
fn entry_distinguishes_missing_and_cleared() {
    let mut state = WindowButtonsInsetsState::new();
    assert_eq!(state.entry(&"main".to_string()), None);
    state.set(&"main".to_string(), None);
    assert_eq!(state.entry(&"main".to_string()), Some(None));
    state.set(&"main".to_string(), Some(Inset { x: 1, y: 2 }));
    assert_eq!(state.entry(&"main".to_string()), Some(Some(Inset { x: 1, y: 2 })));
}

#[test]
fn removed_label_is_skipped_again() {
    let mut state = WindowButtonsInsetsState::new();
    state.set(&"main".to_string(), Some(Inset { x: 20, y: 30 }));
    state.remove(&"main".to_string());
    let m = metrics();
    assert!(update_window_controls_inset(&state, &"main".to_string(), &m).is_none());
    assert_eq!(state.entry(&"main".to_string()), None);
}
