use decorum::config::{
    merge_bool_or_vec, BoolOrVec, DecorumConfig, LabeledWindowConfig, WindowButtons, WindowConfig,
};

fn items(labels: &[&str]) -> BoolOrVec {
    BoolOrVec::Items(labels.iter().map(|l| l.to_string()).collect())
}

fn matches_items(v: &Option<BoolOrVec>, expected: &[&str]) -> bool {
    match v {
        Some(BoolOrVec::Items(actual)) => {
            actual.len() == expected.len()
                && actual.iter().zip(expected.iter()).all(|(a, b)| a == b)
        },
        _ => false,
    }
}

#[test]
fn merge_explicit_true_wins() {
    let r = merge_bool_or_vec(&Some(BoolOrVec::Bool(true)), &Some(items(&["a"])));
    assert!(matches!(r, Some(BoolOrVec::Bool(true))));
}

#[test]
fn merge_nonempty_items_win() {
    let r = merge_bool_or_vec(&Some(items(&["a", "b"])), &Some(BoolOrVec::Bool(true)));
    assert!(matches_items(&r, &["a", "b"]));
}

#[test]
fn merge_empty_items_switch_off() {
    let r = merge_bool_or_vec(&Some(items(&[])), &Some(BoolOrVec::Bool(true)));
    assert!(r.is_none());
}

#[test]
fn merge_explicit_false_switches_off() {
    let r = merge_bool_or_vec(&Some(BoolOrVec::Bool(false)), &Some(items(&["a"])));
    assert!(r.is_none());
}

#[test]
fn merge_absent_takes_default() {
    let r = merge_bool_or_vec(&None, &Some(items(&["a"])));
    assert!(matches_items(&r, &["a"]));
    assert!(merge_bool_or_vec(&None, &None).is_none());
}

#[test]
fn default_window_buttons() {
    let b = WindowButtons::default();
    assert_eq!(b.inset_x, Some(10));
    assert_eq!(b.inset_y, Some(15));
    assert_eq!(b.support_rtl, Some(false));
    assert!(matches!(b.hide, Some(BoolOrVec::Bool(false))));
}

#[test]
fn window_specific_settings_take_priority() {
    let all = WindowConfig {
        window_buttons: Some(WindowButtons::default()),
        create_overlay_titlebar: Some(BoolOrVec::Bool(true)),
        transparent_webviews: Some(items(&["main"])),
    };
    let windows = vec![LabeledWindowConfig {
        label: "main".to_string(),
        config: WindowConfig {
            window_buttons: Some(WindowButtons {
                inset_x: Some(20),
                inset_y: Some(30),
                support_rtl: None,
                hide: None,
            }),
            create_overlay_titlebar: Some(BoolOrVec::Bool(false)),
            transparent_webviews: None,
        },
    }];
    let config = DecorumConfig::new(all, windows);
    let main = config.get_window_config(&"main".to_string()).unwrap();
    let buttons = main.window_buttons.as_ref().unwrap();
    assert_eq!(buttons.inset_x, Some(20));
    assert_eq!(buttons.inset_y, Some(30));
    // An explicit false switches the flag off even though the default was
    // true.
    assert!(main.create_overlay_titlebar.is_none());
    // An absent flag falls back to the default.
    assert!(matches_items(&main.transparent_webviews, &["main"]));
}

#[test]
fn label_only_in_all_section_gets_the_default_config() {
    let all = WindowConfig {
        window_buttons: None,
        create_overlay_titlebar: Some(items(&["onboarding"])),
        transparent_webviews: None,
    };
    let config = DecorumConfig::new(all, Vec::new());
    let onboarding = config.get_window_config(&"onboarding".to_string()).unwrap();
    assert!(onboarding.window_buttons.is_none());
    assert!(matches_items(&onboarding.create_overlay_titlebar, &["onboarding"]));
    assert!(config.get_window_config(&"unknown".to_string()).is_none());
}

#[test]
fn duplicate_window_labels_take_the_last_entry() {
    let windows = vec![
        LabeledWindowConfig {
            label: "main".to_string(),
            config: WindowConfig {
                window_buttons: Some(WindowButtons {
                    inset_x: Some(1),
                    inset_y: Some(1),
                    support_rtl: None,
                    hide: None,
                }),
                create_overlay_titlebar: None,
                transparent_webviews: None,
            },
        },
        LabeledWindowConfig {
            label: "main".to_string(),
            config: WindowConfig {
                window_buttons: Some(WindowButtons {
                    inset_x: Some(2),
                    inset_y: Some(2),
                    support_rtl: None,
                    hide: None,
                }),
                create_overlay_titlebar: None,
                transparent_webviews: None,
            },
        },
    ];
    let config = DecorumConfig::new(WindowConfig::default(), windows);
    let main = config.get_window_config(&"main".to_string()).unwrap();
    assert_eq!(main.window_buttons.as_ref().unwrap().inset_x, Some(2));
}

#[test]
fn all_window_labels_are_collected_uniquely() {
    let all = WindowConfig {
        window_buttons: None,
        create_overlay_titlebar: Some(items(&["a", "b"])),
        transparent_webviews: Some(items(&["b", "c"])),
    };
    let windows = vec![LabeledWindowConfig {
        label: "main".to_string(),
        config: WindowConfig {
            window_buttons: None,
            create_overlay_titlebar: None,
            transparent_webviews: None,
        },
    }];
    let config = DecorumConfig::new(all, windows);
    let mut labels = config.get_all_window_labels();
    labels.sort();
    assert_eq!(labels, vec!["a", "b", "c", "main"]);
}

#[test]
fn default_config_merges_to_an_empty_table() {
    let config = DecorumConfig::default();
    assert!(config.get_window_config(&"main".to_string()).is_none());
    assert!(config.get_all_window_labels().is_empty());
}
