use decorum::input::{recovery_releases, snap_overlay_sequence, InputStep, SnapKey,
    SNAP_SETTLE_DELAY_MS};

#[test]
fn snap_sequence_exact_order() {
    // Recorded against a mock sink, the order is: press modifier, press
    // letter, release letter, wait, press dismiss, release dismiss,
    // release modifier.
    let steps = snap_overlay_sequence();
    assert_eq!(
        steps,
        vec![
            InputStep::Press(SnapKey::Modifier),
            InputStep::Press(SnapKey::Letter),
            InputStep::Release(SnapKey::Letter),
            InputStep::Wait(SNAP_SETTLE_DELAY_MS),
            InputStep::Press(SnapKey::Dismiss),
            InputStep::Release(SnapKey::Dismiss),
            InputStep::Release(SnapKey::Modifier),
        ]
    );
}

#[test]
fn snap_sequence_every_press_has_a_later_release() {
    let steps = snap_overlay_sequence();
    for (i, step) in steps.iter().enumerate() {
        if let InputStep::Press(k) = step {
            assert!(
                steps[i + 1..].iter().any(|s| *s == InputStep::Release(*k)),
                "press at {} unmatched",
                i
            );
        }
    }
}

#[test]
fn snap_sequence_waits_before_dismissal() {
    let steps = snap_overlay_sequence();
    let wait = steps.iter().position(|s| matches!(s, InputStep::Wait(_))).unwrap();
    let dismiss = steps
        .iter()
        .position(|s| *s == InputStep::Press(SnapKey::Dismiss))
        .unwrap();
    assert!(wait < dismiss);
}

#[test]
fn recovery_after_partial_failure_releases_held_keys() {
    // The injection failed after the modifier and the letter went down.
    let done = vec![InputStep::Press(SnapKey::Modifier), InputStep::Press(SnapKey::Letter)];
    let recovery = recovery_releases(&done);
    assert_eq!(
        recovery,
        vec![InputStep::Release(SnapKey::Letter), InputStep::Release(SnapKey::Modifier)]
    );
}

#[test]
fn recovery_after_complete_sequence_is_empty() {
    let done = snap_overlay_sequence();
    assert!(recovery_releases(&done).is_empty());
}

#[test]
fn recovery_ignores_keys_already_released() {
    let done = vec![
        InputStep::Press(SnapKey::Modifier),
        InputStep::Press(SnapKey::Letter),
        InputStep::Release(SnapKey::Letter),
        InputStep::Wait(SNAP_SETTLE_DELAY_MS),
    ];
    let recovery = recovery_releases(&done);
    assert_eq!(recovery, vec![InputStep::Release(SnapKey::Modifier)]);
}
