use decorum::geometry::{
    draw_window_controls, position_traffic_lights, Frame, WindowMetrics, FIXED_BUTTON_SPACING,
};

fn frame(x: i64, y: i64, width: i64, height: i64) -> Frame {
    Frame { x, y, width, height }
}

fn typical_metrics() -> WindowMetrics {
    WindowMetrics {
        window_height: 600,
        title_bar: frame(0, 572, 800, 28),
        close: Some(frame(7, 6, 14, 16)),
        miniaturize: Some(frame(27, 6, 14, 16)),
        zoom: Some(frame(47, 6, 14, 16)),
    }
}

#[test]
fn layout_is_idempotent_measured() {
    let m = typical_metrics();
    let once = draw_window_controls(&m, 20, 30);
    let twice = draw_window_controls(&once, 20, 30);
    assert_eq!(once, twice);
}

#[test]
fn layout_is_idempotent_fixed() {
    let m = typical_metrics();
    let once = position_traffic_lights(&m, 12, 16);
    let twice = position_traffic_lights(&once, 12, 16);
    assert_eq!(once, twice);
}

#[test]
fn controls_ordered_close_minimize_zoom() {
    let m = typical_metrics();
    let r = draw_window_controls(&m, 10, 15);
    let close = r.close.unwrap();
    let mini = r.miniaturize.unwrap();
    let zoom = r.zoom.unwrap();
    assert!(close.x < mini.x);
    assert!(mini.x < zoom.x);
}

#[test]
fn controls_ordered_even_if_input_is_shuffled() {
    // Input frames deliberately out of order; the fixed-gap layout still
    // puts them in close, minimize, zoom order.
    let m = WindowMetrics {
        window_height: 600,
        title_bar: frame(0, 572, 800, 28),
        close: Some(frame(47, 6, 14, 16)),
        miniaturize: Some(frame(7, 6, 14, 16)),
        zoom: Some(frame(27, 6, 14, 16)),
    };
    let r = position_traffic_lights(&m, 10, 15);
    let close = r.close.unwrap();
    let mini = r.miniaturize.unwrap();
    let zoom = r.zoom.unwrap();
    assert!(close.x < mini.x);
    assert!(mini.x < zoom.x);
}

#[test]
fn missing_zoom_leaves_no_gap() {
    let m = WindowMetrics {
        window_height: 600,
        title_bar: frame(0, 572, 800, 28),
        close: Some(frame(7, 6, 14, 16)),
        miniaturize: Some(frame(27, 6, 14, 16)),
        zoom: None,
    };
    let r = draw_window_controls(&m, 10, 15);
    let close = r.close.unwrap();
    let mini = r.miniaturize.unwrap();
    // The gap measured from the input frames is 20; minimize sits directly
    // beside close at that gap.
    assert_eq!(close.x, 10);
    assert_eq!(mini.x, close.x + 20);
    assert!(r.zoom.is_none());
}

#[test]
fn exact_frames_fixed_gap() {
    let m = typical_metrics();
    let r = position_traffic_lights(&m, 12, 16);
    // button height 16, title bar height 16 + 16 = 32, anchored to the top.
    assert_eq!(r.title_bar, frame(0, 600 - 32, 800, 32));
    // vertical: (32 - 16) / 2 - 4 = 4; horizontal: 12, 32, 52.
    assert_eq!(r.close.unwrap(), frame(12, 4, 14, 16));
    assert_eq!(r.miniaturize.unwrap(), frame(12 + FIXED_BUTTON_SPACING, 4, 14, 16));
    assert_eq!(r.zoom.unwrap(), frame(12 + 2 * FIXED_BUTTON_SPACING, 4, 14, 16));
}

#[test]
fn measured_gap_is_taken_from_close_and_miniaturize() {
    let mut m = typical_metrics();
    m.miniaturize = Some(frame(37, 6, 14, 16));
    let r = draw_window_controls(&m, 10, 15);
    assert_eq!(r.close.unwrap().x, 10);
    assert_eq!(r.miniaturize.unwrap().x, 40);
    assert_eq!(r.zoom.unwrap().x, 70);
}

#[test]
fn no_controls_leaves_metrics_untouched() {
    let m = WindowMetrics {
        window_height: 600,
        title_bar: frame(0, 572, 800, 28),
        close: None,
        miniaturize: None,
        zoom: None,
    };
    let r = draw_window_controls(&m, 10, 15);
    assert_eq!(r, m);
}

#[test]
fn button_height_from_first_present_control() {
    let m = WindowMetrics {
        window_height: 400,
        title_bar: frame(0, 372, 500, 28),
        close: None,
        miniaturize: Some(frame(27, 6, 14, 18)),
        zoom: None,
    };
    let r = position_traffic_lights(&m, 10, 12);
    // title bar height = 18 + 12 = 30.
    assert_eq!(r.title_bar.height, 30);
    assert_eq!(r.title_bar.y, 400 - 30);
    // miniaturize is the first present control: it starts at the inset.
    assert_eq!(r.miniaturize.unwrap().x, 10);
}
