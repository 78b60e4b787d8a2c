use decorum::script::{
    controls_json, controls_placeholder, enabled_controls, linux_controls_script,
    overlay_controls_script, replace_first, WindowControl,
};

#[test]
fn all_capabilities_enable_all_controls() {
    let r = enabled_controls(true, true, true, true);
    assert_eq!(
        r,
        vec![WindowControl::Minimize, WindowControl::Maximize, WindowControl::Close]
    );
}

#[test]
fn maximize_needs_both_maximizable_and_resizable() {
    let r = enabled_controls(true, true, false, true);
    assert_eq!(r, vec![WindowControl::Minimize, WindowControl::Close]);
    let r = enabled_controls(true, false, true, true);
    assert_eq!(r, vec![WindowControl::Minimize, WindowControl::Close]);
}

#[test]
fn no_capabilities_enable_nothing() {
    assert!(enabled_controls(false, false, false, false).is_empty());
}

#[test]
fn controls_json_renders_the_quoted_list() {
    let r = controls_json(&vec![WindowControl::Minimize, WindowControl::Close]);
    assert_eq!(r, b"[\"minimize\", \"close\"]".to_vec());
    let r = controls_json(&Vec::new());
    assert_eq!(r, b"[]".to_vec());
}

#[test]
fn placeholder_names_all_three_controls() {
    assert_eq!(
        controls_placeholder(),
        b"[\"minimize\", \"maximize\", \"close\"]".to_vec()
    );
}

#[test]
fn replace_first_replaces_only_the_first_occurrence() {
    let script = b"let a = X; let b = X;".to_vec();
    let needle = b"X".to_vec();
    let replacement = b"Y".to_vec();
    let r = replace_first(&script, &needle, &replacement);
    assert_eq!(r, b"let a = Y; let b = X;".to_vec());
}

#[test]
fn replace_first_leaves_a_script_without_the_needle_unchanged() {
    let script = b"nothing to see".to_vec();
    let r = replace_first(&script, &b"XYZ".to_vec(), &b"abc".to_vec());
    assert_eq!(r, script);
}

#[test]
fn overlay_script_substitutes_the_enabled_controls() {
    let script = b"const controls = [\"minimize\", \"maximize\", \"close\"];".to_vec();
    let r = overlay_controls_script(&script, true, false, false, true);
    assert_eq!(r, b"const controls = [\"minimize\", \"close\"];".to_vec());
}

#[test]
fn overlay_script_without_placeholder_is_unchanged() {
    let script = b"console.log(1);".to_vec();
    let r = overlay_controls_script(&script, true, true, true, true);
    assert_eq!(r, script);
}

#[test]
fn linux_script_takes_theme_icons_where_found() {
    let script = b"close: @win-close minimize: @win-minimize".to_vec();
    let close = Some(b"<svg>c</svg>".to_vec());
    let r = linux_controls_script(&script, &close, &None, &None, &None);
    let text = String::from_utf8(r).unwrap();
    assert!(text.starts_with("close: <svg>c</svg> minimize: <svg viewBox="));
    assert!(!text.contains("@win-close"));
    assert!(!text.contains("@win-minimize"));
}

#[test]
fn linux_script_falls_back_to_builtin_icons() {
    let script = b"[@win-restore]".to_vec();
    let r = linux_controls_script(&script, &None, &None, &None, &None);
    let text = String::from_utf8(r).unwrap();
    assert_eq!(
        text,
        "[<svg viewBox=\"0 0 16 16\"><path d=\"M3 5v8h8V5H3zm7 7H4V6h6v6z M6 3h7v7h-1V4H6V3z\"/></svg>]"
    );
}

#[test]
fn linux_script_without_markers_is_unchanged() {
    let script = b"plain".to_vec();
    let r = linux_controls_script(&script, &None, &None, &None, &None);
    assert_eq!(r, script);
}
