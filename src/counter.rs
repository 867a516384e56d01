use vstd::prelude::*;
use crate::text::{decimal, decimal_string};

verus! {

/// Counts presses of the trigger key and holds the count's label.
#[derive(Clone, Debug)]
pub struct SpacePressed {
    pub times: usize,
    pub label: String,
}

impl SpacePressed {
    /// The label reads the count in decimal.
    pub open spec fn wf(&self) -> bool {
        self.label@ == decimal(self.times as nat)
    }

    /// A counter at zero, labelled "0".
    pub fn new() -> (r: SpacePressed)
        ensures
            r.wf(),
            r.times == 0,
            r.label@ == seq!['0'],
    {
        let r = SpacePressed { times: 0, label: decimal_string(0) };
        assert(decimal(0) == seq!['0']);
        r
    }

    /// Counts one press and rewrites the label.
    pub fn press(&mut self)
        requires
            old(self).times < usize::MAX,
        ensures
            final(self).wf(),
            final(self).times == old(self).times + 1,
    {
        self.times = self.times + 1;
        self.label = decimal_string(self.times as u64);
    }
}

/// Tells a fresh press of a key from one that is still held.
#[derive(Clone, Copy, Debug, PartialEq, Eq, Structural)]
pub struct TriggerEdge {
    pub held: bool,
}

impl TriggerEdge {
    /// A key that is not held.
    pub fn new() -> (r: TriggerEdge)
        ensures
            !r.held,
    {
        TriggerEdge { held: false }
    }

    /// Records whether the key is down this tick, and returns whether it went
    /// down this tick after being up on the last one.
    pub fn just_pressed(&mut self, down: bool) -> (r: bool)
        ensures
            r == (down && !old(self).held),
            final(self).held == down,
    {
        let r = down && !self.held;
        self.held = down;
        r
    }
}

/// The key state and press count after one tick on which the key is `down`.
pub open spec fn trigger_step(held: bool, times: nat, down: bool) -> (bool, nat) {
    (down, if down && !held { times + 1 } else { times })
}

/// The key state and press count after a tick for each of `downs`, in order.
pub open spec fn trigger_after(held: bool, times: nat, downs: Seq<bool>) -> (bool, nat)
    decreases downs.len(),
{
    if downs.len() == 0 {
        (held, times)
    } else {
        let prev = trigger_after(held, times, downs.drop_last());
        trigger_step(prev.0, prev.1, downs.last())
    }
}

/// A key pressed and then held down for any number of ticks counts once.
pub proof fn lemma_held_key_counts_once(times: nat, ticks: nat)
    requires
        ticks >= 1,
    ensures
        trigger_after(false, times, Seq::new(ticks, |i: int| true)) == (true, times + 1),
    decreases ticks,
{
    let downs = Seq::new(ticks, |i: int| true);
    assert(downs.last());
    if ticks > 1 {
        let shorter = Seq::new((ticks - 1) as nat, |i: int| true);
        lemma_held_key_counts_once(times, (ticks - 1) as nat);
        assert(downs.drop_last() =~= shorter);
        assert(trigger_after(false, times, downs.drop_last()) == (true, times + 1));
    } else {
        assert(downs.drop_last() =~= Seq::<bool>::empty());
        assert(trigger_after(false, times, downs.drop_last()) == (false, times));
    }
}

/// Pressing and releasing the key `n` times counts `n` presses.
pub proof fn lemma_discrete_presses_count(times: nat, n: nat)
    ensures
        trigger_after(false, times, press_release(n)) == (false, times + n),
    decreases n,
{
    if n > 0 {
        lemma_discrete_presses_count(times, (n - 1) as nat);
        let s = press_release(n);
        let p = press_release((n - 1) as nat);
        let q = p.push(true);
        assert(s.drop_last() =~= q);
        assert(q.drop_last() =~= p);
        assert(trigger_after(false, times, q) == (true, times + n));
        assert(trigger_after(false, times, s) == (false, times + n));
    }
}

/// `n` presses of the key, each followed by its release.
pub open spec fn press_release(n: nat) -> Seq<bool>
    decreases n,
{
    if n == 0 {
        Seq::empty()
    } else {
        press_release((n - 1) as nat).push(true).push(false)
    }
}

} // verus!
