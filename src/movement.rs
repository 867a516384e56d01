use vstd::prelude::*;

verus! {

/// Width of the window, in pixels.
pub const WINDOW_WIDTH: i64 = 800;

/// Height of the window, in pixels.
pub const WINDOW_HEIGHT: i64 = 500;

/// How far one tick of a held direction key moves the player.
pub const MOVE_STEP: i64 = 10;

/// A position in whole pixels.
#[derive(Clone, Copy, Debug, PartialEq, Eq, Structural)]
pub struct Position {
    pub x: i64,
    pub y: i64,
}

/// The direction keys held during one tick.
#[derive(Clone, Copy, Debug, PartialEq, Eq, Structural)]
pub struct MoveInput {
    pub left: bool,
    pub right: bool,
}

/// The horizontal coordinate after one tick: a step left when the left key is
/// held and `x` is above zero, then a step right when the right key is held
/// and `x` is below the window's width.
pub open spec fn step_x(x: int, input: MoveInput) -> int {
    let after_left = if input.left && x > 0 { x - MOVE_STEP } else { x };
    if input.right && after_left < WINDOW_WIDTH { after_left + MOVE_STEP } else { after_left }
}

/// A horizontal coordinate that movement from the origin can reach: within
/// the window and on the step grid.
pub open spec fn reachable_x(x: int) -> bool {
    0 <= x <= WINDOW_WIDTH && x % (MOVE_STEP as int) == 0
}

/// The horizontal coordinate after a tick for each of `inputs`, in order.
pub open spec fn x_after_moves(x: int, inputs: Seq<MoveInput>) -> int
    decreases inputs.len(),
{
    if inputs.len() == 0 {
        x
    } else {
        step_x(x_after_moves(x, inputs.drop_last()), inputs.last())
    }
}

impl Position {
    /// The origin, where the player starts.
    pub fn origin() -> (r: Position)
        ensures
            r.x == 0,
            r.y == 0,
    {
        Position { x: 0, y: 0 }
    }
}

/// Moves `pos` horizontally for one tick of held direction keys; the
/// vertical coordinate is left as it is.
pub fn move_player(pos: &mut Position, input: MoveInput)
    requires
        i64::MIN + MOVE_STEP <= old(pos).x,
    ensures
        final(pos).x == step_x(old(pos).x as int, input),
        final(pos).y == old(pos).y,
{
    if input.left && pos.x > 0 {
        pos.x = pos.x - MOVE_STEP;
    }
    if input.right && pos.x < WINDOW_WIDTH {
        pos.x = pos.x + MOVE_STEP;
    }
}

/// A tick keeps a reachable coordinate reachable, so within `[0, WINDOW_WIDTH]`.
pub proof fn lemma_step_stays_in_window(x: int, input: MoveInput)
    requires
        reachable_x(x),
    ensures
        reachable_x(step_x(x, input)),
        0 <= step_x(x, input) <= WINDOW_WIDTH,
{
}

/// For every sequence of direction inputs from a reachable coordinate, the
/// coordinate after each tick lies within `[0, WINDOW_WIDTH]`.
pub proof fn lemma_moves_stay_in_window(x: int, inputs: Seq<MoveInput>)
    requires
        reachable_x(x),
    ensures
        forall|i: int|
            0 <= i <= inputs.len() ==> #[trigger] reachable_x(x_after_moves(x, inputs.take(i))),
        forall|i: int|
            0 <= i <= inputs.len() ==> 0 <= #[trigger] x_after_moves(x, inputs.take(i))
                <= WINDOW_WIDTH,
    decreases inputs.len(),
{
    if inputs.len() > 0 {
        let prev = inputs.drop_last();
        lemma_moves_stay_in_window(x, prev);
        assert forall|i: int| 0 <= i <= inputs.len() implies #[trigger] reachable_x(
            x_after_moves(x, inputs.take(i)),
        ) by {
            if i < inputs.len() {
                assert(inputs.take(i) =~= prev.take(i));
            } else {
                assert(inputs.take(i) =~= inputs);
                assert(inputs.drop_last() =~= prev.take(prev.len() as int));
                lemma_step_stays_in_window(x_after_moves(x, prev.take(prev.len() as int)), inputs.last());
            }
        }
    } else {
        assert forall|i: int| 0 <= i <= inputs.len() implies #[trigger] reachable_x(
            x_after_moves(x, inputs.take(i)),
        ) by {
            assert(inputs.take(i) =~= inputs);
        }
    }
    assert forall|i: int| 0 <= i <= inputs.len() implies 0 <= #[trigger] x_after_moves(
        x,
        inputs.take(i),
    ) <= WINDOW_WIDTH by {
        assert(reachable_x(x_after_moves(x, inputs.take(i))));
    }
}

} // verus!
