use vstd::prelude::*;
use crate::keys::Key;

verus! {

/// The shift and caps lock status that character resolution reads.
#[derive(Clone, Copy, Debug, PartialEq, Eq)]
pub struct ModifierState {
    pub shift_held: bool,
    pub caps_toggled: bool,
}

/// The state after observing one key transition.
pub open spec fn transition(m: ModifierState, k: Key, is_press: bool) -> ModifierState {
    if k.is_shift() {
        ModifierState { shift_held: is_press, ..m }
    } else if k is CapsLock && is_press {
        ModifierState { caps_toggled: !m.caps_toggled, ..m }
    } else {
        m
    }
}

/// The state after observing a sequence of key transitions, in order.
pub open spec fn transitions(m: ModifierState, ts: Seq<(Key, bool)>) -> ModifierState
    decreases ts.len(),
{
    if ts.len() == 0 {
        m
    } else {
        transition(transitions(m, ts.drop_last()), ts.last().0, ts.last().1)
    }
}

pub open spec fn is_shift_press(t: (Key, bool)) -> bool {
    t.0.is_shift() && t.1
}

pub open spec fn is_shift_release(t: (Key, bool)) -> bool {
    t.0.is_shift() && !t.1
}

/// Some shift press in `ts` has no shift release after it.
pub open spec fn shift_press_unreleased(ts: Seq<(Key, bool)>) -> bool {
    exists|i: int|
        0 <= i < ts.len() && is_shift_press(#[trigger] ts[i]) && forall|j: int|
            i < j < ts.len() ==> !is_shift_release(#[trigger] ts[j])
}

/// How many caps lock presses `ts` holds.
pub open spec fn caps_presses(ts: Seq<(Key, bool)>) -> nat
    decreases ts.len(),
{
    if ts.len() == 0 {
        0
    } else {
        caps_presses(ts.drop_last()) + if ts.last().0 is CapsLock && ts.last().1 {
            1nat
        } else {
            0nat
        }
    }
}

impl ModifierState {
    /// Neither shift held nor caps lock on.
    pub fn new() -> (r: ModifierState)
        ensures
            r == (ModifierState { shift_held: false, caps_toggled: false }),
    {
        ModifierState { shift_held: false, caps_toggled: false }
    }

    /// Shift press and release set `shift_held`; a caps lock press toggles
    /// `caps_toggled`; other transitions change nothing.
    pub fn on_key_transition(&mut self, key: &Key, is_press: bool)
        ensures
            *final(self) == transition(*old(self), *key, is_press),
    {
        match key {
            Key::ShiftLeft | Key::ShiftRight => {
                self.shift_held = is_press;
            },
            Key::CapsLock => {
                if is_press {
                    self.caps_toggled = !self.caps_toggled;
                }
            },
            _ => {},
        }
    }

    /// A copy of the current state.
    pub fn snapshot(&self) -> (r: ModifierState)
        ensures
            r == *self,
    {
        *self
    }
}

/// After any sequence of key transitions from the initial state, shift is
/// held exactly when some shift press has no shift release after it, and caps
/// lock is on exactly when it was pressed an odd number of times.
pub proof fn lemma_transitions(ts: Seq<(Key, bool)>)
    ensures
        transitions(ModifierState { shift_held: false, caps_toggled: false }, ts).shift_held
            == shift_press_unreleased(ts),
        transitions(ModifierState { shift_held: false, caps_toggled: false }, ts).caps_toggled
            == (caps_presses(ts) % 2 == 1),
    decreases ts.len(),
{
    if ts.len() > 0 {
        let init = ModifierState { shift_held: false, caps_toggled: false };
        let pre = ts.drop_last();
        lemma_transitions(pre);
        let n = ts.len() - 1;
        assert(forall|i: int| 0 <= i < pre.len() ==> pre[i] == ts[i]);
        if is_shift_press(ts[n]) {
            assert(is_shift_press(ts[n]));
        } else if is_shift_release(ts[n]) {
            assert(!shift_press_unreleased(ts)) by {
                assert forall|i: int| 0 <= i < ts.len() && is_shift_press(#[trigger] ts[i]) implies
                    exists|j: int| i < j < ts.len() && is_shift_release(#[trigger] ts[j]) by {
                    assert(i < n);
                    assert(is_shift_release(ts[n]));
                }
            }
        } else {
            if shift_press_unreleased(pre) {
                let i = choose|i: int|
                    0 <= i < pre.len() && is_shift_press(#[trigger] pre[i]) && forall|j: int|
                        i < j < pre.len() ==> !is_shift_release(#[trigger] pre[j]);
                assert(ts[i] == pre[i]);
                assert forall|j: int| i < j < ts.len() implies !is_shift_release(#[trigger] ts[j]) by {
                    if j < n {
                        assert(ts[j] == pre[j]);
                    }
                }
            }
            if shift_press_unreleased(ts) {
                let i = choose|i: int|
                    0 <= i < ts.len() && is_shift_press(#[trigger] ts[i]) && forall|j: int|
                        i < j < ts.len() ==> !is_shift_release(#[trigger] ts[j]);
                assert(i != n);
                assert(pre[i] == ts[i]);
                assert forall|j: int| i < j < pre.len() implies !is_shift_release(#[trigger] pre[j]) by {
                    assert(ts[j] == pre[j]);
                }
            }
        }
        assert(transitions(init, ts) == transition(transitions(init, pre), ts.last().0, ts.last().1));
    }
}

} // verus!
