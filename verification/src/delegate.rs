//! Delegate interception layer.
//!
//! A window's native delegate is replaced by an interceptor that performs
//! the plugin's work and then hands every notification on to the delegate
//! the window had before, so no prior behaviour is lost. This module holds
//! the interceptor's decision logic: which plugin actions each notification
//! triggers and in what order, how the answer to a close request is carried
//! through, and the per-window state record the callbacks read.

use rand::Rng;
use vstd::prelude::*;
use vstd::string::StringExecFns;
use crate::geometry::{
    layout_spec, metrics_wf, WindowMetrics, COORD_LIMIT, FIXED_BUTTON_SPACING,
    WINDOW_CONTROL_PAD_X, WINDOW_CONTROL_PAD_Y,
};
use crate::geometry::position_traffic_lights;

verus! {

/// The window-lifecycle notifications the interceptor handles. Every one
/// of them is forwarded to the window's previous delegate.
#[derive(Clone, Copy, Debug, PartialEq, Eq, Structural)]
pub enum WindowEvent {
    ShouldClose,
    WillClose,
    DidResize,
    DidMove,
    DidChangeBackingProperties,
    DidBecomeKey,
    DidResignKey,
    DraggingEntered,
    PrepareForDragOperation,
    PerformDragOperation,
    ConcludeDragOperation,
    DraggingExited,
    WillUseFullScreenPresentationOptions,
    WillEnterFullScreen,
    DidEnterFullScreen,
    WillExitFullScreen,
    DidExitFullScreen,
    DidFailToEnterFullScreen,
    EffectiveAppearanceDidChange,
    EffectiveAppearanceDidChangedOnMainThread,
}

/// Events the plugin emits on the hosting application's event bus.
#[derive(Clone, Copy, Debug, PartialEq, Eq, Structural)]
pub enum AppEvent {
    WillEnterFullscreen,
    DidEnterFullscreen,
    WillExitFullscreen,
    DidExitFullscreen,
    PageLoad,
}

pub open spec fn app_event_name(e: AppEvent) -> Seq<char> {
    match e {
        AppEvent::WillEnterFullscreen => "will-enter-fullscreen"@,
        AppEvent::DidEnterFullscreen => "did-enter-fullscreen"@,
        AppEvent::WillExitFullscreen => "will-exit-fullscreen"@,
        AppEvent::DidExitFullscreen => "did-exit-fullscreen"@,
        AppEvent::PageLoad => "decorum-page-load"@,
    }
}

impl AppEvent {
    /// The event's name on the hosting framework's event bus.
    pub fn name(&self) -> (r: &'static str)
        ensures
            r@ == app_event_name(*self),
    {
        match self {
            AppEvent::WillEnterFullscreen => "will-enter-fullscreen",
            AppEvent::DidEnterFullscreen => "did-enter-fullscreen",
            AppEvent::WillExitFullscreen => "will-exit-fullscreen",
            AppEvent::DidExitFullscreen => "did-exit-fullscreen",
            AppEvent::PageLoad => "decorum-page-load",
        }
    }
}

/// One step of the interceptor's response to a notification, in order:
/// emit an application event, re-run the geometry engine with the current
/// inset, or invoke the same notification on the previous delegate.
#[derive(Clone, Copy, Debug, PartialEq, Eq, Structural)]
pub enum DelegateAction {
    Emit(AppEvent),
    Reposition,
    Forward(WindowEvent),
}

/// The interceptor's whole response to one notification. Plugin work comes
/// first and forwarding is always the final step, exactly once: resize and
/// full-screen exit re-run the geometry engine, and the four full-screen
/// transitions are announced on the event bus.
pub open spec fn planned_actions(e: WindowEvent) -> Seq<DelegateAction> {
    match e {
        WindowEvent::DidResize => seq![
            DelegateAction::Reposition,
            DelegateAction::Forward(e),
        ],
        WindowEvent::WillEnterFullScreen => seq![
            DelegateAction::Emit(AppEvent::WillEnterFullscreen),
            DelegateAction::Forward(e),
        ],
        WindowEvent::DidEnterFullScreen => seq![
            DelegateAction::Emit(AppEvent::DidEnterFullscreen),
            DelegateAction::Forward(e),
        ],
        WindowEvent::WillExitFullScreen => seq![
            DelegateAction::Emit(AppEvent::WillExitFullscreen),
            DelegateAction::Forward(e),
        ],
        WindowEvent::DidExitFullScreen => seq![
            DelegateAction::Emit(AppEvent::DidExitFullscreen),
            DelegateAction::Reposition,
            DelegateAction::Forward(e),
        ],
        _ => seq![DelegateAction::Forward(e)],
    }
}

/// The actions to perform, in order, when notification `e` arrives.
pub fn plan_event(e: WindowEvent) -> (r: Vec<DelegateAction>)
    ensures
        r@ == planned_actions(e),
{
    let mut r: Vec<DelegateAction> = Vec::new();
    if e == WindowEvent::WillEnterFullScreen {
        r.push(DelegateAction::Emit(AppEvent::WillEnterFullscreen));
    } else if e == WindowEvent::DidEnterFullScreen {
        r.push(DelegateAction::Emit(AppEvent::DidEnterFullscreen));
    } else if e == WindowEvent::WillExitFullScreen {
        r.push(DelegateAction::Emit(AppEvent::WillExitFullscreen));
    } else if e == WindowEvent::DidExitFullScreen {
        r.push(DelegateAction::Emit(AppEvent::DidExitFullscreen));
    }
    if e == WindowEvent::DidResize || e == WindowEvent::DidExitFullScreen {
        r.push(DelegateAction::Reposition);
    }
    r.push(DelegateAction::Forward(e));
    assert(r@ =~= planned_actions(e));
    r
}

pub open spec fn forward_count(s: Seq<DelegateAction>) -> nat
    decreases s.len(),
{
    if s.len() == 0 {
        0
    } else {
        forward_count(s.drop_last()) + (if s.last() is Forward {
            1nat
        } else {
            0nat
        })
    }
}

pub open spec fn reposition_count(s: Seq<DelegateAction>) -> nat
    decreases s.len(),
{
    if s.len() == 0 {
        0
    } else {
        reposition_count(s.drop_last()) + (if s.last() is Reposition {
            1nat
        } else {
            0nat
        })
    }
}

/// Every notification is handed to the previous delegate exactly once, as
/// the final step, so the plugin neither drops nor duplicates nor reorders
/// what the window's own delegate sees.
pub proof fn lemma_plan_forwards_exactly_once(e: WindowEvent)
    ensures
        forward_count(planned_actions(e)) == 1,
        planned_actions(e).len() >= 1,
        planned_actions(e).last() == DelegateAction::Forward(e),
        forall|i: int|
            0 <= i < planned_actions(e).len() - 1 ==> !(planned_actions(e)[i] is Forward),
{
    reveal_with_fuel(forward_count, 4);
}

/// The geometry engine is re-run exactly once on a resize or a full-screen
/// exit, and never otherwise.
pub proof fn lemma_plan_repositions(e: WindowEvent)
    ensures
        reposition_count(planned_actions(e)) == (if e == WindowEvent::DidResize || e
            == WindowEvent::DidExitFullScreen {
            1nat
        } else {
            0nat
        }),
{
    reveal_with_fuel(reposition_count, 4);
}

pub open spec fn emit_count(s: Seq<DelegateAction>) -> nat
    decreases s.len(),
{
    if s.len() == 0 {
        0
    } else {
        emit_count(s.drop_last()) + (if s.last() is Emit {
            1nat
        } else {
            0nat
        })
    }
}

/// Exactly the four full-screen transitions are announced on the event
/// bus, each under its own name and before the notification is forwarded.
pub proof fn lemma_plan_emits(e: WindowEvent)
    ensures
        emit_count(planned_actions(e)) == (if e == WindowEvent::WillEnterFullScreen || e
            == WindowEvent::DidEnterFullScreen || e == WindowEvent::WillExitFullScreen || e
            == WindowEvent::DidExitFullScreen {
            1nat
        } else {
            0nat
        }),
        e == WindowEvent::WillEnterFullScreen ==> planned_actions(e)[0] == DelegateAction::Emit(
            AppEvent::WillEnterFullscreen,
        ),
        e == WindowEvent::DidEnterFullScreen ==> planned_actions(e)[0] == DelegateAction::Emit(
            AppEvent::DidEnterFullscreen,
        ),
        e == WindowEvent::WillExitFullScreen ==> planned_actions(e)[0] == DelegateAction::Emit(
            AppEvent::WillExitFullscreen,
        ),
        e == WindowEvent::DidExitFullScreen ==> planned_actions(e)[0] == DelegateAction::Emit(
            AppEvent::DidExitFullscreen,
        ),
{
    reveal_with_fuel(emit_count, 4);
}

/// The interceptor's answer to a close request is exactly the previous
/// delegate's answer: interception never vetoes or forces a close on its
/// own.
pub fn window_should_close(original_answer: bool) -> (r: bool)
    ensures
        r == original_answer,
{
    original_answer
}

/// Per-window record owned by the installed interceptor: the window's
/// label (a back-reference for lookups, never an owning handle) and the
/// inset its controls are currently positioned at.
#[derive(Debug)]
pub struct WindowState {
    pub label: String,
    pub traffic_light_x: i64,
    pub traffic_light_y: i64,
}

pub open spec fn window_state_wf(s: WindowState) -> bool {
    &&& -(COORD_LIMIT as int) <= s.traffic_light_x as int <= COORD_LIMIT as int
    &&& -(COORD_LIMIT as int) <= s.traffic_light_y as int <= COORD_LIMIT as int
}

/// Record a new desired inset in a window's state record; the next
/// repositioning callback will use it.
pub fn update_traffic_light_positions(state: &mut WindowState, x: i64, y: i64)
    requires
        -(COORD_LIMIT as int) <= x as int <= COORD_LIMIT as int,
        -(COORD_LIMIT as int) <= y as int <= COORD_LIMIT as int,
    ensures
        final(state).label == old(state).label,
        final(state).traffic_light_x == x,
        final(state).traffic_light_y == y,
        window_state_wf(*final(state)),
{
    state.traffic_light_x = x;
    state.traffic_light_y = y;
}

/// The plugin work behind a `Reposition` action: re-run the geometry
/// engine with the inset currently recorded in the window's state.
pub fn reposition_with_state(state: &WindowState, m: &WindowMetrics) -> (r: WindowMetrics)
    requires
        metrics_wf(m@),
        window_state_wf(*state),
    ensures
        r@ == layout_spec(
            m@,
            state.traffic_light_x as int,
            state.traffic_light_y as int,
            FIXED_BUTTON_SPACING as int,
        ),
{
    position_traffic_lights(m, state.traffic_light_x, state.traffic_light_y)
}

/// The public inset API for one window: record the new inset in the
/// window's state record, then apply it to the controls at once, with the
/// fixed platform gap.
pub fn set_traffic_lights_inset(state: &mut WindowState, m: &WindowMetrics, x: i64, y: i64) -> (r:
    WindowMetrics)
    requires
        metrics_wf(m@),
        -(COORD_LIMIT as int) <= x as int <= COORD_LIMIT as int,
        -(COORD_LIMIT as int) <= y as int <= COORD_LIMIT as int,
    ensures
        final(state).label == old(state).label,
        final(state).traffic_light_x == x,
        final(state).traffic_light_y == y,
        r@ == layout_spec(m@, x as int, y as int, FIXED_BUTTON_SPACING as int),
{
    update_traffic_light_positions(state, x, y);
    position_traffic_lights(m, x, y)
}

/// Length of the random suffix in a generated delegate class name.
pub const CLASS_NAME_SUFFIX_LEN: usize = 20;

/// Draws of a random suffix before installation gives up rather than risk
/// registering a native class name twice.
pub const CLASS_NAME_ATTEMPTS: usize = 8;

pub open spec fn is_ascii_alphanumeric_char(c: char) -> bool {
    ||| 'A' <= c <= 'Z'
    ||| 'a' <= c <= 'z'
    ||| '0' <= c <= '9'
}

/// Relies on `rand::thread_rng` sampling `rand::distributions::Alphanumeric`:
/// each sample is uniformly one of `A`-`Z`, `a`-`z`, `0`-`9`, and taking
/// `len` samples yields exactly `len` characters. Nothing more is assumed:
/// the result is random, so two calls may differ.
#[verifier::external_body]
fn random_alphanumeric(len: usize) -> (r: String)
    ensures
        r@.len() == len as int,
        forall|i: int| 0 <= i < r@.len() ==> is_ascii_alphanumeric_char(r@[i]),
{
    rand::thread_rng()
        .sample_iter(&rand::distributions::Alphanumeric)
        .take(len)
        .map(char::from)
        .collect()
}

/// A generated delegate class name: a fixed prefix, the window's label,
/// and a random alphanumeric suffix of the fixed length.
pub open spec fn is_delegate_class_name(name: Seq<char>, label: Seq<char>) -> bool {
    exists|suffix: Seq<char>|
        {
            &&& name == "windowDelegate_"@ + label + "_"@ + suffix
            &&& suffix.len() == CLASS_NAME_SUFFIX_LEN as int
            &&& (forall|i: int| 0 <= i < suffix.len() ==> is_ascii_alphanumeric_char(suffix[i]))
        }
}

fn delegate_class_name(label: &String, suffix: &String) -> (r: String)
    ensures
        r@ == "windowDelegate_"@ + label@ + "_"@ + suffix@,
{
    let mut name = "windowDelegate_".to_owned();
    name.append(label.as_str());
    name.append("_");
    name.append(suffix.as_str());
    proof {
        assert(name@ =~= "windowDelegate_"@ + label@ + "_"@ + suffix@);
    }
    name
}

pub open spec fn contains_string(v: Seq<String>, s: Seq<char>) -> bool {
    exists|i: int| 0 <= i < v.len() && v[i]@ == s
}

/// Whether one of the strings in `v` reads `s`.
pub fn labels_contain(v: &Vec<String>, s: &String) -> (b: bool)
    ensures
        b == contains_string(v@, s@),
{
    let mut i: usize = 0;
    while i < v.len()
        invariant
            i <= v.len(),
            forall|j: int| 0 <= j < i ==> v@[j]@ != s@,
        decreases v.len() - i,
    {
        if v[i].eq(s) {
            assert(v@[i as int]@ == s@);
            return true;
        }
        i = i + 1;
    }
    false
}

/// An interceptor ready to be registered for one window: the fresh native
/// class name to register it under, and the state record whose ownership
/// passes to the installed delegate.
#[derive(Debug)]
pub struct InstalledDelegate {
    pub class_name: String,
    pub state: WindowState,
}

/// Process-wide guard for delegate installation: the native class names
/// already registered (registering a name twice is illegal and must never
/// be attempted) and the labels of windows that already carry an
/// interceptor (installing twice on one window must not happen).
pub struct DelegateInstaller {
    used_class_names: Vec<String>,
    installed_labels: Vec<String>,
}

impl DelegateInstaller {
    pub closed spec fn class_names(&self) -> Seq<String> {
        self.used_class_names@
    }

    pub closed spec fn installed(&self) -> Seq<String> {
        self.installed_labels@
    }

    pub fn new() -> (r: DelegateInstaller)
        ensures
            r.class_names() == Seq::<String>::empty(),
            r.installed() == Seq::<String>::empty(),
    {
        let r = DelegateInstaller { used_class_names: Vec::new(), installed_labels: Vec::new() };
        proof {
            assert(r.class_names() =~= Seq::<String>::empty());
            assert(r.installed() =~= Seq::<String>::empty());
        }
        r
    }

    /// Whether a window with this label already carries an interceptor.
    pub fn label_installed(&self, label: &String) -> (b: bool)
        ensures
            b == contains_string(self.installed(), label@),
    {
        labels_contain(&self.installed_labels, label)
    }

    /// Install interception on a window: guard against double installation,
    /// pick a class name no earlier installation used, create the window's
    /// state record with the initial inset, and do the initial positioning.
    /// `None` on a window that already carries an interceptor, or in the
    /// astronomically unlikely event that every random suffix drawn
    /// collided with an earlier installation's class name — with no earlier
    /// installation no draw can collide, so the first install is owed to
    /// succeed. On `None` nothing is changed.
    pub fn setup_traffic_light_positioner(&mut self, label: &String, m: &WindowMetrics) -> (r:
        Option<(InstalledDelegate, WindowMetrics)>)
        requires
            metrics_wf(m@),
        ensures
            contains_string(old(self).installed(), label@) ==> r is None,
            old(self).class_names().len() == 0 && !contains_string(old(self).installed(), label@)
                ==> r is Some,
            r is None ==> final(self).class_names() == old(self).class_names()
                && final(self).installed() == old(self).installed(),
            r matches Option::Some((d, m2)) ==> {
                &&& !contains_string(old(self).installed(), label@)
                &&& d.state.label@ == label@
                &&& d.state.traffic_light_x == WINDOW_CONTROL_PAD_X
                &&& d.state.traffic_light_y == WINDOW_CONTROL_PAD_Y
                &&& window_state_wf(d.state)
                &&& m2@ == layout_spec(
                    m@,
                    WINDOW_CONTROL_PAD_X as int,
                    WINDOW_CONTROL_PAD_Y as int,
                    FIXED_BUTTON_SPACING as int,
                )
                &&& is_delegate_class_name(d.class_name@, label@)
                &&& !contains_string(old(self).class_names(), d.class_name@)
                &&& final(self).class_names() == old(self).class_names().push(d.class_name)
                &&& final(self).installed() == old(self).installed().push(d.state.label)
            },
    {
        if self.label_installed(label) {
            return Option::None;
        }
        let mut attempts: usize = 0;
        while attempts < CLASS_NAME_ATTEMPTS
            invariant
                self.class_names() == old(self).class_names(),
                self.installed() == old(self).installed(),
                !contains_string(old(self).installed(), label@),
                metrics_wf(m@),
                attempts > 0 ==> old(self).class_names().len() > 0,
        decreases CLASS_NAME_ATTEMPTS - attempts,
        {
            let suffix = random_alphanumeric(CLASS_NAME_SUFFIX_LEN);
            let name = delegate_class_name(label, &suffix);
            if !labels_contain(&self.used_class_names, &name) {
                let state_label = label.clone();
                self.used_class_names.push(name.clone());
                self.installed_labels.push(label.clone());
                let m2 = position_traffic_lights(m, WINDOW_CONTROL_PAD_X, WINDOW_CONTROL_PAD_Y);
                let state = WindowState {
                    label: state_label,
                    traffic_light_x: WINDOW_CONTROL_PAD_X,
                    traffic_light_y: WINDOW_CONTROL_PAD_Y,
                };
                proof {
                    assert(is_delegate_class_name(name@, label@)) by {
                        assert(name@ == "windowDelegate_"@ + label@ + "_"@ + suffix@);
                    }
                }
                return Option::Some((InstalledDelegate { class_name: name, state }, m2));
            }
            attempts = attempts + 1;
        }
        Option::None
    }
}

} // verus!
