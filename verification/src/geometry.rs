//! Window-control geometry engine.
//!
//! Given the current frames of a window's standard controls (close,
//! miniaturize, zoom), the frame of the title-bar container view that holds
//! them, and a desired inset, this module computes the new frame of the
//! title-bar container and the new origin of every control that is present.
//! Coordinates are integer logical pixels; a platform layer converts to and
//! from native frames and applies the result.

use vstd::prelude::*;

verus! {

/// Bound on every coordinate this module accepts, far beyond any real
/// screen, so that all layout arithmetic stays well inside `i64`.
pub const COORD_LIMIT: i64 = 0x100_0000_0000;

/// Horizontal inset applied when interception is first installed on a window.
pub const WINDOW_CONTROL_PAD_X: i64 = 12;

/// Vertical inset applied when interception is first installed on a window.
pub const WINDOW_CONTROL_PAD_Y: i64 = 16;

/// Gap between adjacent controls when it cannot be measured from two
/// controls that are both present.
pub const FIXED_BUTTON_SPACING: i64 = 20;

/// Small downward shift of the controls for visual alignment.
pub const BUTTON_VERTICAL_OFFSET: i64 = 4;

/// Offset from a window's corner at which the first control is placed.
#[derive(Clone, Copy, Debug, PartialEq, Eq)]
pub struct Inset {
    pub x: i64,
    pub y: i64,
}

/// Position and size of one native view, in logical pixels.
#[derive(Clone, Copy, Debug, PartialEq, Eq)]
pub struct Frame {
    pub x: i64,
    pub y: i64,
    pub width: i64,
    pub height: i64,
}

/// Everything the engine reads from a window: its height, the frame of the
/// title-bar container view, and the frame of each standard control that the
/// window was created with. A control a window lacks is `None` and is
/// skipped, never an error.
#[derive(Clone, Copy, Debug, PartialEq, Eq)]
pub struct WindowMetrics {
    pub window_height: i64,
    pub title_bar: Frame,
    pub close: Option<Frame>,
    pub miniaturize: Option<Frame>,
    pub zoom: Option<Frame>,
}

/// Mathematical image of a `Frame`.
pub struct FrameView {
    pub x: int,
    pub y: int,
    pub width: int,
    pub height: int,
}

/// Mathematical image of a `WindowMetrics`.
pub struct WindowMetricsView {
    pub window_height: int,
    pub title_bar: FrameView,
    pub close: Option<FrameView>,
    pub miniaturize: Option<FrameView>,
    pub zoom: Option<FrameView>,
}

impl View for Frame {
    type V = FrameView;

    open spec fn view(&self) -> FrameView {
        FrameView {
            x: self.x as int,
            y: self.y as int,
            width: self.width as int,
            height: self.height as int,
        }
    }
}

pub open spec fn opt_frame_view(f: Option<Frame>) -> Option<FrameView> {
    match f {
        Option::Some(fr) => Option::Some(fr@),
        Option::None => Option::None,
    }
}

impl View for WindowMetrics {
    type V = WindowMetricsView;

    open spec fn view(&self) -> WindowMetricsView {
        WindowMetricsView {
            window_height: self.window_height as int,
            title_bar: self.title_bar@,
            close: opt_frame_view(self.close),
            miniaturize: opt_frame_view(self.miniaturize),
            zoom: opt_frame_view(self.zoom),
        }
    }
}

pub open spec fn frame_wf(f: FrameView) -> bool {
    &&& -(COORD_LIMIT as int) <= f.x <= COORD_LIMIT as int
    &&& -(COORD_LIMIT as int) <= f.y <= COORD_LIMIT as int
    &&& 0 <= f.width <= COORD_LIMIT as int
    &&& 0 <= f.height <= COORD_LIMIT as int
}

pub open spec fn metrics_wf(m: WindowMetricsView) -> bool {
    &&& 0 <= m.window_height <= COORD_LIMIT as int
    &&& frame_wf(m.title_bar)
    &&& (m.close matches Option::Some(f) ==> frame_wf(f))
    &&& (m.miniaturize matches Option::Some(f) ==> frame_wf(f))
    &&& (m.zoom matches Option::Some(f) ==> frame_wf(f))
}

/// Height shared by the controls, taken from the first control that is
/// present (by OS convention all three have the same height).
pub open spec fn button_height_of(m: WindowMetricsView) -> Option<int> {
    match (m.close, m.miniaturize, m.zoom) {
        (Option::Some(f), _, _) => Option::Some(f.height),
        (Option::None, Option::Some(f), _) => Option::Some(f.height),
        (Option::None, Option::None, Option::Some(f)) => Option::Some(f.height),
        (Option::None, Option::None, Option::None) => Option::None,
    }
}

/// Gap between adjacent controls: measured from the close and miniaturize
/// controls when both are present (this adapts to OS changes), otherwise the
/// fixed platform convention.
pub open spec fn measured_spacing(m: WindowMetricsView) -> int {
    match (m.close, m.miniaturize) {
        (Option::Some(c), Option::Some(mi)) => mi.x - c.x,
        _ => FIXED_BUTTON_SPACING as int,
    }
}

/// Division by two that rounds toward zero, matching the executable layout.
pub open spec fn div2_toward_zero(a: int) -> int {
    if a >= 0 {
        a / 2
    } else {
        -((-a) / 2)
    }
}

/// Number of present controls strictly to the left of the given slot in the
/// fixed close, miniaturize, zoom order; a missing control leaves no gap.
pub open spec fn rank_miniaturize(m: WindowMetricsView) -> int {
    if m.close is Some {
        1
    } else {
        0
    }
}

pub open spec fn rank_zoom(m: WindowMetricsView) -> int {
    rank_miniaturize(m) + (if m.miniaturize is Some {
        1int
    } else {
        0int
    })
}

pub open spec fn place_control(
    f: Option<FrameView>,
    x: int,
    vertical: int,
    rank: int,
    spacing: int,
) -> Option<FrameView> {
    match f {
        Option::Some(fr) => Option::Some(
            FrameView { x: x + rank * spacing, y: vertical, width: fr.width, height: fr.height },
        ),
        Option::None => Option::None,
    }
}

/// The whole layout step: resize the title-bar container to hold the
/// controls plus the vertical inset, anchor it to the top of the window, and
/// line the present controls up left to right from the horizontal inset,
/// vertically centered with a small downward shift. A window with no
/// controls at all is left untouched.
pub open spec fn layout_spec(m: WindowMetricsView, x: int, y: int, spacing: int) -> WindowMetricsView {
    match button_height_of(m) {
        Option::None => m,
        Option::Some(bh) => {
            let title_h = bh + y;
            let vertical = div2_toward_zero(title_h - bh) - BUTTON_VERTICAL_OFFSET as int;
            WindowMetricsView {
                window_height: m.window_height,
                title_bar: FrameView {
                    x: m.title_bar.x,
                    y: m.window_height - title_h,
                    width: m.title_bar.width,
                    height: title_h,
                },
                close: place_control(m.close, x, vertical, 0, spacing),
                miniaturize: place_control(m.miniaturize, x, vertical, rank_miniaturize(m), spacing),
                zoom: place_control(m.zoom, x, vertical, rank_zoom(m), spacing),
            }
        },
    }
}

fn half_toward_zero(a: i64) -> (r: i64)
    requires
        -4 * COORD_LIMIT as int <= a as int <= 4 * COORD_LIMIT as int,
    ensures
        r as int == div2_toward_zero(a as int),
{
    if a >= 0 {
        ((a as u64) / 2) as i64
    } else {
        -(((-a) as u64 / 2) as i64)
    }
}

fn place_exec(f: &Option<Frame>, x: i64, vertical: i64, rank: i64, spacing: i64) -> (r: Option<
    Frame,
>)
    requires
        -(COORD_LIMIT as int) <= x as int <= COORD_LIMIT as int,
        -4 * COORD_LIMIT as int <= vertical as int <= 4 * COORD_LIMIT as int,
        0 <= rank as int <= 2,
        -2 * COORD_LIMIT as int <= spacing as int <= 2 * COORD_LIMIT as int,
    ensures
        opt_frame_view(r) == place_control(opt_frame_view(*f), x as int, vertical as int, rank as int, spacing as int),
{
    let offset: i64 = if rank == 0 {
        0
    } else if rank == 1 {
        spacing
    } else {
        spacing + spacing
    };
    assert(offset as int == rank as int * spacing as int);
    match f {
        Option::Some(fr) => Option::Some(
            Frame { x: x + offset, y: vertical, width: fr.width, height: fr.height },
        ),
        Option::None => Option::None,
    }
}

/// Core of the engine: apply the layout for one inset and one control gap.
fn layout_with_spacing(m: &WindowMetrics, x: i64, y: i64, spacing: i64) -> (r: WindowMetrics)
    requires
        metrics_wf(m@),
        -(COORD_LIMIT as int) <= x as int <= COORD_LIMIT as int,
        -(COORD_LIMIT as int) <= y as int <= COORD_LIMIT as int,
        -2 * COORD_LIMIT as int <= spacing as int <= 2 * COORD_LIMIT as int,
    ensures
        r@ == layout_spec(m@, x as int, y as int, spacing as int),
{
    let button_height: i64 = match (&m.close, &m.miniaturize, &m.zoom) {
        (Option::Some(f), _, _) => f.height,
        (Option::None, Option::Some(f), _) => f.height,
        (Option::None, Option::None, Option::Some(f)) => f.height,
        (Option::None, Option::None, Option::None) => {
            return *m;
        },
    };
    let title_h = button_height + y;
    let vertical = half_toward_zero(title_h - button_height) - BUTTON_VERTICAL_OFFSET;
    let rank_mini: i64 = if m.close.is_some() {
        1
    } else {
        0
    };
    let rank_zoom: i64 = rank_mini + (if m.miniaturize.is_some() {
        1
    } else {
        0
    });
    WindowMetrics {
        window_height: m.window_height,
        title_bar: Frame {
            x: m.title_bar.x,
            y: m.window_height - title_h,
            width: m.title_bar.width,
            height: title_h,
        },
        close: place_exec(&m.close, x, vertical, 0, spacing),
        miniaturize: place_exec(&m.miniaturize, x, vertical, rank_mini, spacing),
        zoom: place_exec(&m.zoom, x, vertical, rank_zoom, spacing),
    }
}

/// Layout with the fixed platform gap between controls.
pub fn position_traffic_lights(m: &WindowMetrics, x: i64, y: i64) -> (r: WindowMetrics)
    requires
        metrics_wf(m@),
        -(COORD_LIMIT as int) <= x as int <= COORD_LIMIT as int,
        -(COORD_LIMIT as int) <= y as int <= COORD_LIMIT as int,
    ensures
        r@ == layout_spec(m@, x as int, y as int, FIXED_BUTTON_SPACING as int),
{
    layout_with_spacing(m, x, y, FIXED_BUTTON_SPACING)
}

/// Layout with the gap measured from the close and miniaturize controls
/// when both are present.
pub fn draw_window_controls(m: &WindowMetrics, x: i64, y: i64) -> (r: WindowMetrics)
    requires
        metrics_wf(m@),
        -(COORD_LIMIT as int) <= x as int <= COORD_LIMIT as int,
        -(COORD_LIMIT as int) <= y as int <= COORD_LIMIT as int,
    ensures
        r@ == layout_spec(m@, x as int, y as int, measured_spacing(m@)),
{
    let spacing: i64 = match (&m.close, &m.miniaturize) {
        (Option::Some(c), Option::Some(mi)) => mi.x - c.x,
        _ => FIXED_BUTTON_SPACING,
    };
    layout_with_spacing(m, x, y, spacing)
}

/// The layout never adds or removes a control, never changes a control's
/// size, and never changes the window height.
pub proof fn lemma_layout_preserves_shape(m: WindowMetricsView, x: int, y: int, spacing: int)
    ensures
        ({
            let r = layout_spec(m, x, y, spacing);
            &&& r.window_height == m.window_height
            &&& r.close is Some <==> m.close is Some
            &&& r.miniaturize is Some <==> m.miniaturize is Some
            &&& r.zoom is Some <==> m.zoom is Some
            &&& (m.close matches Option::Some(f) ==> r.close.unwrap().width == f.width
                && r.close.unwrap().height == f.height)
            &&& (m.miniaturize matches Option::Some(f) ==> r.miniaturize.unwrap().width == f.width
                && r.miniaturize.unwrap().height == f.height)
            &&& (m.zoom matches Option::Some(f) ==> r.zoom.unwrap().width == f.width
                && r.zoom.unwrap().height == f.height)
        }),
{
}

/// Applying the layout twice with the same inset gives the same final
/// frames as applying it once, with the control gap measured afresh from
/// the first result: the engine is idempotent, so it is safe to re-run it
/// on every resize notification.
pub proof fn lemma_layout_idempotent_measured(m: WindowMetricsView, x: int, y: int)
    ensures
        ({
            let r = layout_spec(m, x, y, measured_spacing(m));
            layout_spec(r, x, y, measured_spacing(r)) == r
        }),
{
    let r = layout_spec(m, x, y, measured_spacing(m));
    lemma_layout_preserves_shape(m, x, y, measured_spacing(m));
    assert(button_height_of(r) == button_height_of(m));
    assert(measured_spacing(r) == measured_spacing(m)) by {
        if m.close is Some && m.miniaturize is Some {
            assert(r.miniaturize.unwrap().x - r.close.unwrap().x == measured_spacing(m));
        }
    }
}

/// Idempotence for the fixed-gap layout.
pub proof fn lemma_layout_idempotent_fixed(m: WindowMetricsView, x: int, y: int)
    ensures
        ({
            let r = layout_spec(m, x, y, FIXED_BUTTON_SPACING as int);
            layout_spec(r, x, y, FIXED_BUTTON_SPACING as int) == r
        }),
{
    lemma_layout_preserves_shape(m, x, y, FIXED_BUTTON_SPACING as int);
}

/// With all three controls present and a positive gap, the layout always
/// puts them in the order close, miniaturize, zoom from left to right,
/// whatever their order was before.
pub proof fn lemma_controls_ordered(m: WindowMetricsView, x: int, y: int, spacing: int)
    requires
        m.close is Some,
        m.miniaturize is Some,
        m.zoom is Some,
        spacing > 0,
    ensures
        ({
            let r = layout_spec(m, x, y, spacing);
            &&& r.close.unwrap().x < r.miniaturize.unwrap().x
            &&& r.miniaturize.unwrap().x < r.zoom.unwrap().x
        }),
{
    let r = layout_spec(m, x, y, spacing);
    assert(rank_miniaturize(m) == 1);
    assert(rank_zoom(m) == 2);
    assert(r.close.unwrap().x == x + 0 * spacing);
    assert(r.miniaturize.unwrap().x == x + 1 * spacing);
    assert(r.zoom.unwrap().x == x + 2 * spacing);
}

/// With the fixed platform gap the ordering holds with no further
/// hypothesis: the gap is a positive constant.
pub proof fn lemma_traffic_lights_ordered(m: WindowMetricsView, x: int, y: int)
    requires
        m.close is Some,
        m.miniaturize is Some,
        m.zoom is Some,
    ensures
        ({
            let r = layout_spec(m, x, y, FIXED_BUTTON_SPACING as int);
            &&& r.close.unwrap().x < r.miniaturize.unwrap().x
            &&& r.miniaturize.unwrap().x < r.zoom.unwrap().x
        }),
{
    lemma_controls_ordered(m, x, y, FIXED_BUTTON_SPACING as int);
}

/// For a window without a zoom control, only close and miniaturize are
/// positioned, and miniaturize sits directly beside close at the control
/// gap: no space is reserved for the missing control.
pub proof fn lemma_layout_without_zoom(m: WindowMetricsView, x: int, y: int, spacing: int)
    requires
        m.close is Some,
        m.miniaturize is Some,
        m.zoom is None,
    ensures
        ({
            let r = layout_spec(m, x, y, spacing);
            &&& r.close.unwrap().x == x
            &&& r.miniaturize.unwrap().x == x + spacing
            &&& r.zoom is None
        }),
{
}

} // verus!
