//! The plugin's user-invoked commands, as decisions on plain values: the
//! platform layer resolves windows, performs input injection and marshals
//! to the UI thread, and reports any of that failing with the error values
//! defined here.

use vstd::prelude::*;
use crate::delegate::contains_string;
use crate::geometry::Inset;
use crate::input::{snap_overlay_sequence, snap_overlay_steps, InputStep};
use crate::registry::{inset_wf, WindowButtonsInsetsState};

verus! {

/// What can go wrong at the native boundary. An unsupported platform is
/// not an error: the affected command is a defined no-op there.
#[derive(Clone, Copy, Debug, PartialEq, Eq, Structural)]
pub enum DecorumError {
    /// The window's native handle could not be obtained (window already
    /// destroyed, or not backed by a native window).
    HandleResolution,
    /// The OS refused or failed a synthetic input call.
    InputInjection,
    /// The run-on-main-thread primitive failed to schedule work.
    ThreadMarshal,
}

pub open spec fn error_message(e: DecorumError) -> Seq<char> {
    match e {
        DecorumError::HandleResolution => "window handle could not be resolved"@,
        DecorumError::InputInjection => "synthetic input injection failed"@,
        DecorumError::ThreadMarshal => "could not marshal work onto the main thread"@,
    }
}

impl DecorumError {
    /// A short description, surfaced to the command's caller.
    pub fn message(&self) -> (r: &'static str)
        ensures
            r@ == error_message(*self),
    {
        match self {
            DecorumError::HandleResolution => "window handle could not be resolved",
            DecorumError::InputInjection => "synthetic input injection failed",
            DecorumError::ThreadMarshal => "could not marshal work onto the main thread",
        }
    }
}

/// The input steps the snap-overlay command performs: the full chord on a
/// platform with the snap gesture, and nothing at all elsewhere, where the
/// command is a successful no-op.
pub fn show_snap_overlay_plan(platform_supported: bool) -> (r: Vec<InputStep>)
    ensures
        platform_supported ==> r@ == snap_overlay_steps(),
        !platform_supported ==> r@ == Seq::<InputStep>::empty(),
{
    if platform_supported {
        snap_overlay_sequence()
    } else {
        let r: Vec<InputStep> = Vec::new();
        assert(r@ =~= Seq::<InputStep>::empty());
        r
    }
}

/// The inset command: resolve the target window, then record the new
/// override (or clear it with `None`). A target label that names no open
/// window is a handle-resolution error and changes nothing; without a
/// target label the command applies to the window it arrived on. `Ok`
/// carries whether this was the label's first write, the cue for the
/// caller's one-time theme-change subscription.
pub fn set_window_buttons_inset(
    registry: &mut WindowButtonsInsetsState,
    open_windows: &Vec<String>,
    current_label: &String,
    target_label: &Option<String>,
    inset: Option<Inset>,
) -> (r: Result<bool, DecorumError>)
    requires
        old(registry).wf(),
        inset matches Option::Some(i) ==> inset_wf(i),
    ensures
        final(registry).wf(),
        ({
            let resolved = match target_label {
                Option::Some(l) => l@,
                Option::None => current_label@,
            };
            match r {
                Result::Ok(first) => {
                    &&& (target_label matches Option::Some(l) ==> contains_string(
                        open_windows@,
                        l@,
                    ))
                    &&& final(registry)@ == old(registry)@.insert(resolved, inset)
                    &&& first == !old(registry)@.dom().contains(resolved)
                },
                Result::Err(e) => {
                    &&& e == DecorumError::HandleResolution
                    &&& target_label matches Option::Some(l) && !contains_string(
                        open_windows@,
                        l@,
                    )
                    &&& final(registry)@ == old(registry)@
                },
            }
        }),
{
    let label: &String = match target_label {
        Option::Some(l) => {
            if !crate::delegate::labels_contain(open_windows, l) {
                return Result::Err(DecorumError::HandleResolution);
            }
            l
        },
        Option::None => current_label,
    };
    let first = registry.set(label, inset);
    Result::Ok(first)
}

} // verus!
