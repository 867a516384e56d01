use vstd::prelude::*;

verus! {

/// First frame of the run animation in the sprite sheet.
pub const INDEX_FIRST: usize = 33;

/// Last frame of the run animation in the sprite sheet.
pub const INDEX_LAST: usize = 40;

/// Time between two frames, in nanoseconds.
pub const FRAME_INTERVAL_NANOS: u64 = 100_000_000;

/// The frame range of an animation, both ends included.
#[derive(Clone, Copy, Debug, PartialEq, Eq, Structural)]
pub struct AnimationIndices {
    pub first: usize,
    pub last: usize,
}

impl AnimationIndices {
    pub open spec fn wf(&self) -> bool {
        self.first <= self.last
    }

    /// The number of frames in the range.
    pub open spec fn len(&self) -> nat {
        (self.last - self.first + 1) as nat
    }
}

/// The frame that follows `index` in the range, wrapping to `first` after `last`.
pub open spec fn next_frame(ind: AnimationIndices, index: int) -> int {
    if index == ind.last {
        ind.first as int
    } else {
        index + 1
    }
}

/// The frame reached from `index` after `n` advances.
pub open spec fn frame_after(ind: AnimationIndices, index: int, n: nat) -> int
    decreases n,
{
    if n == 0 {
        index
    } else {
        next_frame(ind, frame_after(ind, index, (n - 1) as nat))
    }
}

/// A sprite whose frame advances on a fixed interval and cycles through
/// `indices`; `elapsed_nanos` is the time accumulated since the last advance.
#[derive(Clone, Copy, Debug, PartialEq, Eq, Structural)]
pub struct AnimatedSprite {
    pub indices: AnimationIndices,
    pub index: usize,
    pub elapsed_nanos: u64,
}

impl AnimatedSprite {
    pub open spec fn wf(&self) -> bool {
        &&& self.indices.wf()
        &&& self.indices.first <= self.index <= self.indices.last
        &&& self.elapsed_nanos < FRAME_INTERVAL_NANOS
    }

    /// A sprite showing the first frame of `indices`, with no time accumulated.
    pub fn new(indices: AnimationIndices) -> (r: AnimatedSprite)
        requires
            indices.wf(),
        ensures
            r.wf(),
            r.indices == indices,
            r.index == indices.first,
            r.elapsed_nanos == 0,
    {
        AnimatedSprite { indices, index: indices.first, elapsed_nanos: 0 }
    }
}

/// Whether a tick of `delta` nanoseconds, on top of `elapsed` accumulated
/// ones, reaches the frame interval.
pub open spec fn interval_reached(elapsed: u64, delta: u64) -> bool {
    elapsed + delta >= FRAME_INTERVAL_NANOS
}

/// The next frame of `index` within `indices`.
pub fn advance_index(indices: &AnimationIndices, index: usize) -> (r: usize)
    requires
        indices.wf(),
        indices.first <= index <= indices.last,
    ensures
        r == next_frame(*indices, index as int),
        indices.first <= r <= indices.last,
{
    if index == indices.last {
        indices.first
    } else {
        index + 1
    }
}

/// One scheduler tick of `delta_nanos`: the time accumulates, and once it
/// reaches the frame interval the accumulator is reset and the frame advances
/// by one, wrapping within the range.
pub fn animate_sprite(sprite: &mut AnimatedSprite, delta_nanos: u64)
    requires
        old(sprite).wf(),
    ensures
        final(sprite).wf(),
        *final(sprite) == sprite_tick(*old(sprite), delta_nanos),
        interval_reached(old(sprite).elapsed_nanos, delta_nanos) ==> {
            &&& final(sprite).index == next_frame(old(sprite).indices, old(sprite).index as int)
            &&& final(sprite).elapsed_nanos == 0
        },
        !interval_reached(old(sprite).elapsed_nanos, delta_nanos) ==> {
            &&& final(sprite).index == old(sprite).index
            &&& final(sprite).elapsed_nanos == old(sprite).elapsed_nanos + delta_nanos
        },
{
    if delta_nanos >= FRAME_INTERVAL_NANOS - sprite.elapsed_nanos {
        sprite.index = advance_index(&sprite.indices, sprite.index);
        sprite.elapsed_nanos = 0;
    } else {
        sprite.elapsed_nanos = sprite.elapsed_nanos + delta_nanos;
    }
}

/// Every frame reached from a frame of the range stays in the range.
pub proof fn lemma_frame_after_in_range(ind: AnimationIndices, index: int, n: nat)
    requires
        ind.wf(),
        ind.first <= index <= ind.last,
    ensures
        ind.first <= frame_after(ind, index, n) <= ind.last,
    decreases n,
{
    if n > 0 {
        lemma_frame_after_in_range(ind, index, (n - 1) as nat);
    }
}

/// Starting at `first`, `k` advances with `k` below the number of frames
/// land on `first + k`.
proof fn lemma_frame_after_from_first(ind: AnimationIndices, k: nat)
    requires
        ind.wf(),
        k < ind.len(),
    ensures
        frame_after(ind, ind.first as int, k) == ind.first + k,
    decreases k,
{
    if k > 0 {
        lemma_frame_after_from_first(ind, (k - 1) as nat);
    }
}

/// The animation is cyclic: from `first`, after as many advances as the range
/// has frames, the index is back at `first`.
pub proof fn lemma_animation_cycle(ind: AnimationIndices)
    requires
        ind.wf(),
    ensures
        frame_after(ind, ind.first as int, ind.len()) == ind.first,
{
    lemma_frame_after_from_first(ind, (ind.len() - 1) as nat);
}

/// Running the animation for any number of ticks keeps the frame within
/// `[first, last]`.
pub proof fn lemma_ticks_keep_frame_in_range(s: AnimatedSprite, deltas: Seq<u64>)
    requires
        s.wf(),
    ensures
        sprite_after_ticks(s, deltas).wf(),
        sprite_after_ticks(s, deltas).indices == s.indices,
    decreases deltas.len(),
{
    if deltas.len() > 0 {
        lemma_ticks_keep_frame_in_range(s, deltas.drop_last());
    }
}

/// The state of one tick of `delta` nanoseconds, as `animate_sprite` makes it.
pub open spec fn sprite_tick(s: AnimatedSprite, delta: u64) -> AnimatedSprite {
    if interval_reached(s.elapsed_nanos, delta) {
        AnimatedSprite {
            index: next_frame(s.indices, s.index as int) as usize,
            elapsed_nanos: 0,
            ..s
        }
    } else {
        AnimatedSprite { elapsed_nanos: (s.elapsed_nanos + delta) as u64, ..s }
    }
}

/// The state after a tick for each of `deltas`, in order.
pub open spec fn sprite_after_ticks(s: AnimatedSprite, deltas: Seq<u64>) -> AnimatedSprite
    decreases deltas.len(),
{
    if deltas.len() == 0 {
        s
    } else {
        sprite_tick(sprite_after_ticks(s, deltas.drop_last()), deltas.last())
    }
}

/// `n` ticks of one full frame interval each.
pub open spec fn full_intervals(n: nat) -> Seq<u64> {
    Seq::new(n, |i: int| FRAME_INTERVAL_NANOS)
}

/// Each tick of a full frame interval advances the frame by one.
pub proof fn lemma_full_intervals_advance(s: AnimatedSprite, n: nat)
    requires
        s.wf(),
    ensures
        sprite_after_ticks(s, full_intervals(n)).index == frame_after(s.indices, s.index as int, n),
        sprite_after_ticks(s, full_intervals(n)).elapsed_nanos == if n == 0 {
            s.elapsed_nanos
        } else {
            0
        },
    decreases n,
{
    if n > 0 {
        let d = full_intervals(n);
        assert(d.drop_last() =~= full_intervals((n - 1) as nat));
        lemma_full_intervals_advance(s, (n - 1) as nat);
        lemma_ticks_keep_frame_in_range(s, d.drop_last());
    }
}

/// From the first frame, as many full frame intervals as the range has
/// frames bring the sprite back to the first frame.
pub proof fn lemma_ticks_cycle(s: AnimatedSprite)
    requires
        s.wf(),
        s.index == s.indices.first,
    ensures
        sprite_after_ticks(s, full_intervals(s.indices.len())).index == s.indices.first,
{
    lemma_full_intervals_advance(s, s.indices.len());
    lemma_animation_cycle(s.indices);
}

} // verus!
