//! Input synthesizer: the synthetic keyboard chord that asks the OS for its
//! window-snap overlay.
//!
//! The chord is a modifier key held around a letter key, a fixed settle
//! delay while the overlay renders, and a dismissal key; it only works while
//! the modifier stays down, so the exact order matters. This module builds
//! the step sequence as data; a platform layer performs each step through
//! the OS input-injection call and, if a step fails midway, asks
//! [`recovery_releases`] for the releases that leave no key stuck down.

use vstd::prelude::*;

verus! {

/// Milliseconds the overlay is given to render before it is dismissed.
pub const SNAP_SETTLE_DELAY_MS: u64 = 50;

/// The three roles a key plays in the snap chord.
#[derive(Clone, Copy, Debug, PartialEq, Eq, Structural)]
pub enum SnapKey {
    Modifier,
    Letter,
    Dismiss,
}

/// One step of a synthetic input sequence.
#[derive(Clone, Copy, Debug, PartialEq, Eq, Structural)]
pub enum InputStep {
    Press(SnapKey),
    Release(SnapKey),
    Wait(u64),
}

/// The full snap-overlay chord: press the modifier, tap the letter while
/// the modifier is held, give the overlay time to render, tap the dismissal
/// key, and only then release the modifier.
pub open spec fn snap_overlay_steps() -> Seq<InputStep> {
    seq![
        InputStep::Press(SnapKey::Modifier),
        InputStep::Press(SnapKey::Letter),
        InputStep::Release(SnapKey::Letter),
        InputStep::Wait(SNAP_SETTLE_DELAY_MS),
        InputStep::Press(SnapKey::Dismiss),
        InputStep::Release(SnapKey::Dismiss),
        InputStep::Release(SnapKey::Modifier),
    ]
}

/// Number of presses of `k` in `s`.
pub open spec fn count_presses(s: Seq<InputStep>, k: SnapKey) -> nat
    decreases s.len(),
{
    if s.len() == 0 {
        0
    } else {
        count_presses(s.drop_last(), k) + (if s.last() == InputStep::Press(k) {
            1nat
        } else {
            0nat
        })
    }
}

/// Number of releases of `k` in `s`.
pub open spec fn count_releases(s: Seq<InputStep>, k: SnapKey) -> nat
    decreases s.len(),
{
    if s.len() == 0 {
        0
    } else {
        count_releases(s.drop_last(), k) + (if s.last() == InputStep::Release(k) {
            1nat
        } else {
            0nat
        })
    }
}

/// Every press in `s` is followed, later in `s`, by a release of the same
/// key: running the whole of `s` leaves no key stuck down.
pub open spec fn presses_matched(s: Seq<InputStep>) -> bool {
    forall|i: int, k: SnapKey|
        0 <= i < s.len() && s[i] == InputStep::Press(k) ==> exists|j: int|
            i < j < s.len() && s[j] == InputStep::Release(k)
}

/// Each key is pressed exactly as often as it is released.
pub open spec fn releases_balanced(s: Seq<InputStep>) -> bool {
    forall|k: SnapKey| count_presses(s, k) == count_releases(s, k)
}

/// The snap chord, as the steps to perform in order.
pub fn snap_overlay_sequence() -> (r: Vec<InputStep>)
    ensures
        r@ == snap_overlay_steps(),
{
    let mut r: Vec<InputStep> = Vec::new();
    r.push(InputStep::Press(SnapKey::Modifier));
    r.push(InputStep::Press(SnapKey::Letter));
    r.push(InputStep::Release(SnapKey::Letter));
    r.push(InputStep::Wait(SNAP_SETTLE_DELAY_MS));
    r.push(InputStep::Press(SnapKey::Dismiss));
    r.push(InputStep::Release(SnapKey::Dismiss));
    r.push(InputStep::Release(SnapKey::Modifier));
    assert(r@ =~= snap_overlay_steps());
    r
}

/// The snap chord never leaves a key held: every press is matched by a
/// later release, and each key sees as many releases as presses.
pub proof fn lemma_snap_overlay_matched()
    ensures
        presses_matched(snap_overlay_steps()),
        releases_balanced(snap_overlay_steps()),
{
    let s = snap_overlay_steps();
    assert forall|i: int, k: SnapKey|
        0 <= i < s.len() && s[i] == InputStep::Press(k) implies exists|j: int|
        i < j < s.len() && s[j] == InputStep::Release(k) by {
        if i == 0 {
            assert(s[6] == InputStep::Release(SnapKey::Modifier));
        } else if i == 1 {
            assert(s[2] == InputStep::Release(SnapKey::Letter));
        } else if i == 4 {
            assert(s[5] == InputStep::Release(SnapKey::Dismiss));
        }
    }
    assert forall|k: SnapKey| count_presses(s, k) == count_releases(s, k) by {
        reveal_with_fuel(count_presses, 8);
        reveal_with_fuel(count_releases, 8);
    }
}

/// Releases still owed for `k` after performing the steps in `s`.
pub open spec fn pending(s: Seq<InputStep>, k: SnapKey) -> int {
    if count_presses(s, k) > count_releases(s, k) {
        count_presses(s, k) - count_releases(s, k)
    } else {
        0
    }
}

pub open spec fn releases_only(s: Seq<InputStep>) -> bool {
    forall|i: int| 0 <= i < s.len() ==> s[i] is Release
}

pub proof fn lemma_count_concat(a: Seq<InputStep>, b: Seq<InputStep>, k: SnapKey)
    ensures
        count_presses(a + b, k) == count_presses(a, k) + count_presses(b, k),
        count_releases(a + b, k) == count_releases(a, k) + count_releases(b, k),
    decreases b.len(),
{
    if b.len() == 0 {
        assert(a + b =~= a);
    } else {
        lemma_count_concat(a, b.drop_last(), k);
        assert((a + b).drop_last() =~= a + b.drop_last());
        assert((a + b).last() == b.last());
    }
}

pub proof fn lemma_releases_only_counts(s: Seq<InputStep>, k: SnapKey)
    requires
        releases_only(s),
    ensures
        count_presses(s, k) == 0,
    decreases s.len(),
{
    if s.len() > 0 {
        assert(forall|i: int| 0 <= i < s.len() - 1 ==> s.drop_last()[i] == s[i]);
        lemma_releases_only_counts(s.drop_last(), k);
    }
}

pub open spec fn repeat_release(k: SnapKey, n: nat) -> Seq<InputStep> {
    Seq::new(n, |i: int| InputStep::Release(k))
}

pub proof fn lemma_repeat_release_counts(k: SnapKey, k2: SnapKey, n: nat)
    ensures
        count_releases(repeat_release(k, n), k2) == if k == k2 {
            n
        } else {
            0nat
        },
    decreases n,
{
    if n > 0 {
        assert(repeat_release(k, n).drop_last() =~= repeat_release(k, (n - 1) as nat));
        lemma_repeat_release_counts(k, k2, (n - 1) as nat);
    }
}

/// Releases of `k` still owed after the performed prefix `done`.
fn pending_releases(done: &Vec<InputStep>, k: SnapKey) -> (n: usize)
    ensures
        n as int == pending(done@, k),
{
    let mut presses: usize = 0;
    let mut releases: usize = 0;
    let mut i: usize = 0;
    while i < done.len()
        invariant
            i <= done.len(),
            presses == count_presses(done@.take(i as int), k),
            releases == count_releases(done@.take(i as int), k),
            presses <= i,
            releases <= i,
        decreases done.len() - i,
    {
        proof {
            assert(done@.take(i + 1).drop_last() =~= done@.take(i as int));
            assert(done@.take(i + 1).last() == done@[i as int]);
        }
        if done[i] == InputStep::Press(k) {
            presses = presses + 1;
        } else if done[i] == InputStep::Release(k) {
            releases = releases + 1;
        }
        i = i + 1;
    }
    proof {
        assert(done@.take(done@.len() as int) =~= done@);
    }
    if presses > releases {
        presses - releases
    } else {
        0
    }
}

fn push_releases(out: &mut Vec<InputStep>, k: SnapKey, n: usize)
    ensures
        final(out)@ == old(out)@ + repeat_release(k, n as nat),
{
    let mut j: usize = 0;
    while j < n
        invariant
            j <= n,
            out@ == old(out)@ + repeat_release(k, j as nat),
        decreases n - j,
    {
        out.push(InputStep::Release(k));
        proof {
            assert(out@ =~= old(out)@ + repeat_release(k, (j + 1) as nat));
        }
        j = j + 1;
    }
}

/// The steps that put the keyboard right after an input sequence failed
/// partway: one release for every key the performed prefix left held. If
/// the prefix never over-released a key, performing the prefix plus these
/// releases presses and releases each key equally often, so no modifier is
/// left stuck even on an intermediate failure.
pub fn recovery_releases(done: &Vec<InputStep>) -> (r: Vec<InputStep>)
    ensures
        releases_only(r@),
        forall|k: SnapKey| count_releases(r@, k) as int == pending(done@, k),
        (forall|k: SnapKey| count_presses(done@, k) >= count_releases(done@, k))
            ==> releases_balanced(done@ + r@),
{
    let n_letter = pending_releases(done, SnapKey::Letter);
    let n_dismiss = pending_releases(done, SnapKey::Dismiss);
    let n_modifier = pending_releases(done, SnapKey::Modifier);
    let mut out: Vec<InputStep> = Vec::new();
    push_releases(&mut out, SnapKey::Letter, n_letter);
    push_releases(&mut out, SnapKey::Dismiss, n_dismiss);
    push_releases(&mut out, SnapKey::Modifier, n_modifier);
    proof {
        let a = repeat_release(SnapKey::Letter, n_letter as nat);
        let b = repeat_release(SnapKey::Dismiss, n_dismiss as nat);
        let c = repeat_release(SnapKey::Modifier, n_modifier as nat);
        assert(out@ =~= (a + b) + c);
        assert forall|k: SnapKey| count_releases(out@, k) as int == pending(done@, k) by {
            lemma_count_concat(a + b, c, k);
            lemma_count_concat(a, b, k);
            lemma_repeat_release_counts(SnapKey::Letter, k, n_letter as nat);
            lemma_repeat_release_counts(SnapKey::Dismiss, k, n_dismiss as nat);
            lemma_repeat_release_counts(SnapKey::Modifier, k, n_modifier as nat);
        }
        if forall|k: SnapKey| count_presses(done@, k) >= count_releases(done@, k) {
            assert forall|k: SnapKey|
                count_presses(done@ + out@, k) == count_releases(done@ + out@, k) by {
                lemma_count_concat(done@, out@, k);
                lemma_releases_only_counts(out@, k);
                assert(count_presses(done@, k) >= count_releases(done@, k));
            }
        }
    }
    out
}

} // verus!
