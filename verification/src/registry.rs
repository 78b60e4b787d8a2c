//! Per-window state registry.
//!
//! One process-wide table from window label to desired control inset,
//! written by the public configuration command and read by the resize and
//! full-screen callbacks. An entry holding `None` means the label's
//! override has been cleared: positioning then falls back to the default
//! inset. The registry's mathematical content is a map from label to
//! optional inset; the table behind it is an association list with
//! pairwise-distinct labels.

use vstd::prelude::*;
use crate::geometry::{
    draw_window_controls, layout_spec, measured_spacing, metrics_wf, Inset, WindowMetrics,
    COORD_LIMIT,
};

verus! {

/// Inset used for a window whose override is absent or cleared.
pub const DEFAULT_TRAFFIC_LIGHTS_INSET_X: i64 = 10;

/// See [`DEFAULT_TRAFFIC_LIGHTS_INSET_X`].
pub const DEFAULT_TRAFFIC_LIGHTS_INSET_Y: i64 = 15;

pub open spec fn default_inset() -> Inset {
    Inset { x: DEFAULT_TRAFFIC_LIGHTS_INSET_X, y: DEFAULT_TRAFFIC_LIGHTS_INSET_Y }
}

pub open spec fn inset_wf(i: Inset) -> bool {
    &&& -(COORD_LIMIT as int) <= i.x as int <= COORD_LIMIT as int
    &&& -(COORD_LIMIT as int) <= i.y as int <= COORD_LIMIT as int
}

struct InsetEntry {
    label: String,
    inset: Option<Inset>,
}

/// First-match lookup in the association list.
spec fn entries_lookup(s: Seq<InsetEntry>, l: Seq<char>) -> Option<Option<Inset>>
    decreases s.len(),
{
    if s.len() == 0 {
        Option::None
    } else if s[0].label@ == l {
        Option::Some(s[0].inset)
    } else {
        entries_lookup(s.subrange(1, s.len() as int), l)
    }
}

/// The inset to lay a window out with: its override if one is set, else
/// the default.
pub open spec fn effective_inset(m: Map<Seq<char>, Option<Inset>>, l: Seq<char>) -> Inset {
    if m.dom().contains(l) {
        match m[l] {
            Option::Some(i) => i,
            Option::None => default_inset(),
        }
    } else {
        default_inset()
    }
}

/// The registry. Its view is the map from window label to the optional
/// inset override recorded for that label.
pub struct WindowButtonsInsetsState {
    entries: Vec<InsetEntry>,
}

impl View for WindowButtonsInsetsState {
    type V = Map<Seq<char>, Option<Inset>>;

    closed spec fn view(&self) -> Map<Seq<char>, Option<Inset>> {
        Map::new(
            |l: Seq<char>| entries_lookup(self.entries@, l) is Some,
            |l: Seq<char>| entries_lookup(self.entries@, l).unwrap(),
        )
    }
}

proof fn lemma_lookup_push(s: Seq<InsetEntry>, e: InsetEntry, l: Seq<char>)
    ensures
        entries_lookup(s.push(e), l) == if entries_lookup(s, l) is Some {
            entries_lookup(s, l)
        } else if l == e.label@ {
            Option::Some(e.inset)
        } else {
            Option::None::<Option<Inset>>
        },
    decreases s.len(),
{
    reveal_with_fuel(entries_lookup, 3);
    if s.len() == 0 {
        assert(s.push(e)[0] == e);
        assert(s.push(e).subrange(1, 1) =~= Seq::<InsetEntry>::empty());
    } else {
        assert(s.push(e)[0] == s[0]);
        assert(s.push(e).subrange(1, s.len() as int + 1) =~= s.subrange(1, s.len() as int).push(e));
        lemma_lookup_push(s.subrange(1, s.len() as int), e, l);
    }
}

proof fn lemma_lookup_update(s: Seq<InsetEntry>, i: int, e: InsetEntry, l: Seq<char>)
    requires
        0 <= i < s.len(),
        s[i].label@ == e.label@,
        forall|j: int| 0 <= j < i ==> s[j].label@ != e.label@,
    ensures
        entries_lookup(s.update(i, e), l) == if l == e.label@ {
            Option::Some(e.inset)
        } else {
            entries_lookup(s, l)
        },
    decreases s.len(),
{
    if i == 0 {
        assert(s.update(0, e)[0] == e);
        if l != e.label@ {
            assert(s.update(0, e).subrange(1, s.len() as int) =~= s.subrange(1, s.len() as int));
        }
    } else {
        assert(s.update(i, e)[0] == s[0]);
        assert(s[0].label@ != e.label@);
        let tail = s.subrange(1, s.len() as int);
        assert(s.update(i, e).subrange(1, s.len() as int) =~= tail.update(i - 1, e));
        assert(forall|j: int| 0 <= j < i - 1 ==> tail[j] == s[j + 1]);
        lemma_lookup_update(tail, i - 1, e, l);
    }
}

proof fn lemma_lookup_remove(s: Seq<InsetEntry>, i: int, l: Seq<char>)
    requires
        0 <= i < s.len(),
        forall|j: int| 0 <= j < i ==> s[j].label@ != s[i].label@,
        forall|j: int| i < j < s.len() ==> s[j].label@ != s[i].label@,
    ensures
        entries_lookup(s.remove(i), l) == if l == s[i].label@ {
            Option::None::<Option<Inset>>
        } else {
            entries_lookup(s, l)
        },
    decreases s.len(),
{
    if i == 0 {
        assert(s.remove(0) =~= s.subrange(1, s.len() as int));
        if l == s[0].label@ {
            lemma_lookup_absent(s.subrange(1, s.len() as int), l);
        }
    } else {
        assert(s.remove(i)[0] == s[0]);
        let tail = s.subrange(1, s.len() as int);
        assert(s.remove(i).subrange(1, s.len() - 1) =~= tail.remove(i - 1));
        assert(forall|j: int| 0 <= j < tail.len() ==> tail[j] == s[j + 1]);
        lemma_lookup_remove(tail, i - 1, l);
    }
}

proof fn lemma_lookup_absent(s: Seq<InsetEntry>, l: Seq<char>)
    requires
        forall|j: int| 0 <= j < s.len() ==> s[j].label@ != l,
    ensures
        entries_lookup(s, l) is None,
    decreases s.len(),
{
    if s.len() > 0 {
        let tail = s.subrange(1, s.len() as int);
        assert(forall|j: int| 0 <= j < tail.len() ==> tail[j] == s[j + 1]);
        lemma_lookup_absent(tail, l);
    }
}

proof fn lemma_lookup_is_entry(s: Seq<InsetEntry>, l: Seq<char>)
    requires
        entries_lookup(s, l) is Some,
    ensures
        exists|i: int|
            0 <= i < s.len() && s[i].label@ == l && entries_lookup(s, l) == Option::Some(
                s[i].inset,
            ),
    decreases s.len(),
{
    if s[0].label@ == l {
        assert(entries_lookup(s, l) == Option::Some(s[0].inset));
    } else {
        let tail = s.subrange(1, s.len() as int);
        lemma_lookup_is_entry(tail, l);
        let i = choose|i: int|
            0 <= i < tail.len() && tail[i].label@ == l && entries_lookup(tail, l) == Option::Some(
                tail[i].inset,
            );
        assert(s[i + 1] == tail[i]);
    }
}

proof fn lemma_lookup_found(s: Seq<InsetEntry>, i: int)
    requires
        0 <= i < s.len(),
        forall|j: int| 0 <= j < i ==> s[j].label@ != s[i].label@,
    ensures
        entries_lookup(s, s[i].label@) == Option::Some(s[i].inset),
    decreases s.len(),
{
    if i > 0 {
        let tail = s.subrange(1, s.len() as int);
        assert(forall|j: int| 0 <= j < tail.len() ==> tail[j] == s[j + 1]);
        lemma_lookup_found(tail, i - 1);
    }
}

impl WindowButtonsInsetsState {
    /// Labels are pairwise distinct and every stored inset is within the
    /// coordinate bound the geometry engine accepts.
    pub closed spec fn wf(&self) -> bool {
        &&& forall|i: int, j: int|
            0 <= i < j < self.entries@.len() ==> self.entries@[i].label@ != self.entries@[j].label@
        &&& forall|i: int|
            0 <= i < self.entries@.len() ==> (#[trigger] self.entries@[i].inset matches
            Option::Some(ins) ==> inset_wf(ins))
    }

    pub fn new() -> (r: WindowButtonsInsetsState)
        ensures
            r.wf(),
            r@ == Map::<Seq<char>, Option<Inset>>::empty(),
    {
        let r = WindowButtonsInsetsState { entries: Vec::new() };
        proof {
            assert(r@ =~= Map::<Seq<char>, Option<Inset>>::empty());
        }
        r
    }

    /// Index of the entry for this label, if there is one.
    fn find(&self, label: &String) -> (r: Option<usize>)
        ensures
            r matches Option::Some(i) ==> i < self.entries@.len()
                && self.entries@[i as int].label@ == label@
                && (forall|j: int| 0 <= j < i ==> self.entries@[j].label@ != label@),
            r is None ==> forall|j: int|
                0 <= j < self.entries@.len() ==> self.entries@[j].label@ != label@,
    {
        let mut i: usize = 0;
        while i < self.entries.len()
            invariant
                i <= self.entries@.len(),
                forall|j: int| 0 <= j < i ==> self.entries@[j].label@ != label@,
            decreases self.entries@.len() - i,
        {
            if self.entries[i].label.eq(label) {
                return Option::Some(i);
            }
            i = i + 1;
        }
        Option::None
    }

    /// Record the desired inset for a label; `None` clears the label's
    /// override, so it falls back to the default inset. Returns whether
    /// this was the first write for the label, the caller's cue for its
    /// one-time subscription to the window's theme-change notification.
    pub fn set(&mut self, label: &String, inset: Option<Inset>) -> (first: bool)
        requires
            old(self).wf(),
            inset matches Option::Some(i) ==> inset_wf(i),
        ensures
            final(self).wf(),
            final(self)@ == old(self)@.insert(label@, inset),
            first == !old(self)@.dom().contains(label@),
    {
        let entry = InsetEntry { label: label.clone(), inset };
        match self.find(label) {
            Option::Some(i) => {
                proof {
                    assert forall|l: Seq<char>|
                        entries_lookup(self.entries@.update(i as int, entry), l) == (if l
                            == label@ {
                            Option::Some(inset)
                        } else {
                            entries_lookup(self.entries@, l)
                        }) by {
                        lemma_lookup_update(self.entries@, i as int, entry, l);
                    }
                    lemma_lookup_found(self.entries@, i as int);
                }
                self.entries.set(i, entry);
                proof {
                    assert(self@ =~= old(self)@.insert(label@, inset));
                }
                false
            },
            Option::None => {
                proof {
                    assert forall|l: Seq<char>|
                        entries_lookup(self.entries@.push(entry), l) == (if entries_lookup(
                            self.entries@,
                            l,
                        ) is Some {
                            entries_lookup(self.entries@, l)
                        } else if l == label@ {
                            Option::Some(inset)
                        } else {
                            Option::None::<Option<Inset>>
                        }) by {
                        lemma_lookup_push(self.entries@, entry, l);
                    }
                    lemma_lookup_absent(self.entries@, label@);
                }
                self.entries.push(entry);
                proof {
                    assert(self@ =~= old(self)@.insert(label@, inset));
                }
                true
            },
        }
    }

    /// The override entry recorded for a label: `None` if the label was
    /// never written, `Some(None)` if its override was cleared.
    pub fn entry(&self, label: &String) -> (r: Option<Option<Inset>>)
        ensures
            r == if self@.dom().contains(label@) {
                Option::Some(self@[label@])
            } else {
                Option::None::<Option<Inset>>
            },
    {
        match self.find(label) {
            Option::Some(i) => {
                proof {
                    lemma_lookup_found(self.entries@, i as int);
                }
                Option::Some(self.entries[i].inset)
            },
            Option::None => {
                proof {
                    lemma_lookup_absent(self.entries@, label@);
                }
                Option::None
            },
        }
    }

    /// The inset to position this window's controls at: the recorded
    /// override if one is set, else the default inset.
    pub fn get(&self, label: &String) -> (r: Inset)
        ensures
            r == effective_inset(self@, label@),
    {
        match self.entry(label) {
            Option::Some(Option::Some(i)) => i,
            _ => Inset { x: DEFAULT_TRAFFIC_LIGHTS_INSET_X, y: DEFAULT_TRAFFIC_LIGHTS_INSET_Y },
        }
    }

    /// Drop a label's entry outright, the explicit teardown for a window
    /// that has been destroyed, so the registry never leaks an entry for a
    /// window that no longer exists.
    pub fn remove(&mut self, label: &String)
        requires
            old(self).wf(),
        ensures
            final(self).wf(),
            final(self)@ == old(self)@.remove(label@),
    {
        match self.find(label) {
            Option::Some(i) => {
                proof {
                    assert forall|l: Seq<char>|
                        entries_lookup(self.entries@.remove(i as int), l) == (if l == label@ {
                            Option::None::<Option<Inset>>
                        } else {
                            entries_lookup(self.entries@, l)
                        }) by {
                        lemma_lookup_remove(self.entries@, i as int, l);
                    }
                }
                self.entries.remove(i);
                proof {
                    assert(self@ =~= old(self)@.remove(label@));
                }
            },
            Option::None => {
                proof {
                    lemma_lookup_absent(self.entries@, label@);
                    assert(self@ =~= old(self)@.remove(label@));
                }
            },
        }
    }
}

/// The registry's write-read contract: after recording an override it is
/// what positioning uses; after clearing, positioning reverts to the
/// default inset; and a write for one label never disturbs another.
pub proof fn lemma_override_roundtrip(
    m: Map<Seq<char>, Option<Inset>>,
    l: Seq<char>,
    l2: Seq<char>,
    i: Inset,
)
    ensures
        effective_inset(m.insert(l, Option::Some(i)), l) == i,
        effective_inset(m.insert(l, Option::None), l) == default_inset(),
        l2 != l ==> effective_inset(m.insert(l, Option::Some(i)), l2) == effective_inset(m, l2),
        l2 != l ==> effective_inset(m.insert(l, Option::None), l2) == effective_inset(m, l2),
{
}

/// In a well-formed registry every inset that positioning can come to use
/// is within the coordinate bound the geometry engine accepts.
pub proof fn lemma_effective_inset_wf(state: &WindowButtonsInsetsState, l: Seq<char>)
    requires
        state.wf(),
    ensures
        inset_wf(effective_inset(state@, l)),
        state@.dom().contains(l) ==> (state@[l] matches Option::Some(i) ==> inset_wf(i)),
{
    if state@.dom().contains(l) {
        lemma_lookup_is_entry(state.entries@, l);
    }
}

/// The repositioning a callback runs for one window: look the label up in
/// the registry and, if the window has an entry, lay its controls out at
/// the recorded override or at the default inset. A window the registry
/// does not know is skipped.
pub fn update_window_controls_inset(
    state: &WindowButtonsInsetsState,
    label: &String,
    m: &WindowMetrics,
) -> (r: Option<WindowMetrics>)
    requires
        state.wf(),
        metrics_wf(m@),
    ensures
        state@.dom().contains(label@) ==> (r matches Option::Some(m2) && m2@ == layout_spec(
            m@,
            effective_inset(state@, label@).x as int,
            effective_inset(state@, label@).y as int,
            measured_spacing(m@),
        )),
        !state@.dom().contains(label@) ==> r is None,
{
    proof {
        lemma_effective_inset_wf(state, label@);
    }
    match state.entry(label) {
        Option::Some(entry) => {
            let inset = match entry {
                Option::Some(i) => i,
                Option::None => Inset {
                    x: DEFAULT_TRAFFIC_LIGHTS_INSET_X,
                    y: DEFAULT_TRAFFIC_LIGHTS_INSET_Y,
                },
            };
            Option::Some(draw_window_controls(m, inset.x, inset.y))
        },
        Option::None => Option::None,
    }
}

} // verus!
