use vstd::prelude::*;

use crate::led_pattern::spec_successor;
use crate::led_pattern::LedPattern;

verus! {

/// The interrupt-shared core state: the currently selected pattern and
/// the debounce state. `armed` is true exactly when the next qualifying
/// button edge is allowed to advance the selection.
#[derive(Clone, Copy, PartialEq, Eq, Structural, Debug)]
pub struct Selector {
    pub selection: LedPattern,
    pub armed: bool,
}

/// What a qualifying button edge does to the state: when `armed` is
/// true, the selection advances one step and the debounce window
/// closes; when it is not, the edge is ignored and nothing changes.
pub open spec fn edge_step(s: Selector) -> Selector {
    if s.armed {
        Selector { selection: spec_successor(s.selection), armed: false }
    } else {
        s
    }
}

/// What a debounce-timer expiry does to the state: the debounce window
/// re-arms and the selection is left alone.
pub open spec fn rearm_step(s: Selector) -> Selector {
    Selector { selection: s.selection, armed: true }
}

impl Selector {
    /// The startup state: the Hammer pattern is selected and `armed` is
    /// true, so the very first press is accepted immediately.
    pub fn new() -> (s: Selector)
        ensures
            s.selection == LedPattern::Hammer,
            s.armed,
    {
        Selector { selection: LedPattern::Hammer, armed: true }
    }

    /// Reaction to a rising edge on the button line. Returns true exactly
    /// when the edge was accepted, i.e. when the caller must start the
    /// debounce timer's one-shot expiry notification.
    pub fn on_edge(&mut self) -> (advanced: bool)
        ensures
            *final(self) == edge_step(*old(self)),
            advanced == old(self).armed,
            old(self).armed ==> final(self).selection == spec_successor(old(self).selection)
                && !final(self).armed,
            !old(self).armed ==> *final(self) == *old(self),
    {
        if self.armed {
            self.armed = false;
            self.selection = self.selection.successor();
            true
        } else {
            false
        }
    }

    /// Reaction to the debounce timer's expiry: the debounce window
    /// re-arms and the selection is untouched.
    pub fn on_timer_expiry(&mut self)
        ensures
            *final(self) == rearm_step(*old(self)),
            final(self).armed,
            final(self).selection == old(self).selection,
    {
        self.armed = true;
    }
}

/// An armed debounce window accepts exactly one edge: the first edge
/// advances the selection one step and disarms, and a second edge before
/// any timer expiry leaves the state exactly as the first edge left it.
pub proof fn lemma_second_edge_ignored(s: Selector)
    requires
        s.armed,
    ensures
        edge_step(s).selection == spec_successor(s.selection),
        !edge_step(s).armed,
        edge_step(edge_step(s)) == edge_step(s),
{
}

/// A timer expiry after an accepted edge re-arms the state without moving
/// the selection, and the next qualifying edge then advances the selection
/// exactly one more step.
pub proof fn lemma_rearm_enables_next_advance(s: Selector)
    requires
        s.armed,
    ensures
        rearm_step(edge_step(s)).armed,
        rearm_step(edge_step(s)).selection == spec_successor(s.selection),
        edge_step(rearm_step(edge_step(s))).selection == spec_successor(
            spec_successor(s.selection),
        ),
{
}

/// The state after `n` consecutive button edges with no timer expiry in
/// between.
pub open spec fn apply_edges(s: Selector, n: nat) -> Selector
    decreases n,
{
    if n == 0 {
        s
    } else {
        edge_step(apply_edges(s, (n - 1) as nat))
    }
}

/// No run of edges strictly between two timer expiries advances the
/// selection more than once: however many edges arrive, the state is the
/// one left by the first edge (or the starting state, if `armed` was
/// false or no edge arrived at all).
pub proof fn lemma_at_most_one_advance(s: Selector, n: nat)
    ensures
        apply_edges(s, n) == if s.armed && n > 0 {
            edge_step(s)
        } else {
            s
        },
    decreases n,
{
    if n > 0 {
        lemma_at_most_one_advance(s, (n - 1) as nat);
    }
}

} // verus!
