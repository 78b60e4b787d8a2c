use decorum::delegate::{
    plan_event, window_should_close, AppEvent, DelegateAction, DelegateInstaller,
    WindowEvent, WindowState,
};
use decorum::delegate::update_traffic_light_positions;
use decorum::geometry::{Frame, WindowMetrics};

fn metrics() -> WindowMetrics {
    WindowMetrics {
        window_height: 600,
        title_bar: Frame { x: 0, y: 572, width: 800, height: 28 },
        close: Some(Frame { x: 7, y: 6, width: 14, height: 16 }),
        miniaturize: Some(Frame { x: 27, y: 6, width: 14, height: 16 }),
        zoom: Some(Frame { x: 47, y: 6, width: 14, height: 16 }),
    }
}

fn count_forwards(actions: &[DelegateAction]) -> usize {
    actions.iter().filter(|a| matches!(a, DelegateAction::Forward(_))).count()
}

fn count_repositions(actions: &[DelegateAction]) -> usize {
    actions.iter().filter(|a| matches!(a, DelegateAction::Reposition)).count()
}

#[test]
fn resize_repositions_once_and_forwards_once() {
    let actions = plan_event(WindowEvent::DidResize);
    assert_eq!(
        actions,
        vec![DelegateAction::Reposition, DelegateAction::Forward(WindowEvent::DidResize)]
    );
    assert_eq!(count_forwards(&actions), 1);
    assert_eq!(count_repositions(&actions), 1);
}

#[test]
fn every_event_forwards_exactly_once_and_last() {
    let events = [
        WindowEvent::ShouldClose,
        WindowEvent::WillClose,
        WindowEvent::DidResize,
        WindowEvent::DidMove,
        WindowEvent::DidChangeBackingProperties,
        WindowEvent::DidBecomeKey,
        WindowEvent::DidResignKey,
        WindowEvent::DraggingEntered,
        WindowEvent::PrepareForDragOperation,
        WindowEvent::PerformDragOperation,
        WindowEvent::ConcludeDragOperation,
        WindowEvent::DraggingExited,
        WindowEvent::WillUseFullScreenPresentationOptions,
        WindowEvent::WillEnterFullScreen,
        WindowEvent::DidEnterFullScreen,
        WindowEvent::WillExitFullScreen,
        WindowEvent::DidExitFullScreen,
        WindowEvent::DidFailToEnterFullScreen,
        WindowEvent::EffectiveAppearanceDidChange,
        WindowEvent::EffectiveAppearanceDidChangedOnMainThread,
    ];
    for e in events {
        let actions = plan_event(e);
        assert_eq!(count_forwards(&actions), 1, "{:?}", e);
        assert_eq!(*actions.last().unwrap(), DelegateAction::Forward(e), "{:?}", e);
    }
}

#[test]
fn only_resize_and_fullscreen_exit_reposition() {
    assert_eq!(count_repositions(&plan_event(WindowEvent::DidResize)), 1);
    assert_eq!(count_repositions(&plan_event(WindowEvent::DidExitFullScreen)), 1);
    assert_eq!(count_repositions(&plan_event(WindowEvent::DidMove)), 0);
    assert_eq!(count_repositions(&plan_event(WindowEvent::WillExitFullScreen)), 0);
    assert_eq!(count_repositions(&plan_event(WindowEvent::DidEnterFullScreen)), 0);
}

#[test]
fn fullscreen_transitions_emit_their_events() {
    let actions = plan_event(WindowEvent::DidExitFullScreen);
    assert_eq!(
        actions,
        vec![
            DelegateAction::Emit(AppEvent::DidExitFullscreen),
            DelegateAction::Reposition,
            DelegateAction::Forward(WindowEvent::DidExitFullScreen),
        ]
    );
    assert_eq!(
        plan_event(WindowEvent::WillEnterFullScreen)[0],
        DelegateAction::Emit(AppEvent::WillEnterFullscreen)
    );
    assert_eq!(
        plan_event(WindowEvent::DidEnterFullScreen)[0],
        DelegateAction::Emit(AppEvent::DidEnterFullscreen)
    );
    assert_eq!(
        plan_event(WindowEvent::WillExitFullScreen)[0],
        DelegateAction::Emit(AppEvent::WillExitFullscreen)
    );
}

#[test]
fn app_event_names() {
    assert_eq!(AppEvent::WillEnterFullscreen.name(), "will-enter-fullscreen");
    assert_eq!(AppEvent::DidEnterFullscreen.name(), "did-enter-fullscreen");
    assert_eq!(AppEvent::WillExitFullscreen.name(), "will-exit-fullscreen");
    assert_eq!(AppEvent::DidExitFullscreen.name(), "did-exit-fullscreen");
    assert_eq!(AppEvent::PageLoad.name(), "decorum-page-load");
}

#[test]
fn should_close_repeats_the_original_delegates_answer() {
    // A stub original delegate that denies the close: the interceptor must
    // deny it too.
    assert!(!window_should_close(false));
    assert!(window_should_close(true));
}

#[test]
fn setup_positions_at_initial_pad_and_guards_reinstall() {
    let mut installer = DelegateInstaller::new();
    let m = metrics();
    let (delegate, positioned) = installer
        .setup_traffic_light_positioner(&"main".to_string(), &m)
        .expect("first installation succeeds");
    assert_eq!(delegate.state.label, "main");
    assert_eq!(delegate.state.traffic_light_x, 12);
    assert_eq!(delegate.state.traffic_light_y, 16);
    assert_eq!(positioned.close.unwrap().x, 12);
    assert!(delegate.class_name.starts_with("windowDelegate_main_"));
    assert_eq!(delegate.class_name.len(), "windowDelegate_main_".len() + 20);
    assert!(delegate.class_name.chars().skip("windowDelegate_main_".len()).all(|c| {
        c.is_ascii_alphanumeric()
    }));

    // Installing twice on the same window must not happen.
    assert!(installer.setup_traffic_light_positioner(&"main".to_string(), &m).is_none());
    // A second window gets its own delegate under a different class name.
    let (other, _) = installer
        .setup_traffic_light_positioner(&"other".to_string(), &m)
        .expect("second window installs");
    assert_ne!(other.class_name, delegate.class_name);
}

#[test]
fn set_traffic_lights_inset_updates_state_and_applies_at_once() {
    let mut state = WindowState {
        label: "main".to_string(),
        traffic_light_x: 12,
        traffic_light_y: 16,
    };
    let m = metrics();
    let r = decorum::delegate::set_traffic_lights_inset(&mut state, &m, 20, 30);
    assert_eq!(state.traffic_light_x, 20);
    assert_eq!(state.traffic_light_y, 30);
    assert_eq!(r.close.unwrap().x, 20);
    assert_eq!(r.title_bar.height, 16 + 30);
}

#[test]
fn update_traffic_light_positions_rewrites_the_state() {
    let mut state = WindowState {
        label: "main".to_string(),
        traffic_light_x: 12,
        traffic_light_y: 16,
    };
    update_traffic_light_positions(&mut state, 20, 30);
    assert_eq!(state.label, "main");
    assert_eq!(state.traffic_light_x, 20);
    assert_eq!(state.traffic_light_y, 30);
}
