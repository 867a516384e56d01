use vstd::prelude::*;
use crate::animation::{
    AnimatedSprite, AnimationIndices, animate_sprite, sprite_tick, INDEX_FIRST, INDEX_LAST,
};
use crate::counter::{SpacePressed, TriggerEdge, trigger_step};
use crate::label::{PlayerPosition, position_text, text_update_position};
use crate::movement::{MoveInput, Position, move_player, reachable_x, step_x, lemma_step_stays_in_window};
use crate::player::{Player, PlayerState};

verus! {

/// What one frame hands to the game: the time since the last frame and the
/// keys that are down.
#[derive(Clone, Copy, Debug, PartialEq, Eq, Structural)]
pub struct FrameInput {
    pub delta_nanos: u64,
    pub left: bool,
    pub right: bool,
    pub space: bool,
}

/// Every record of the running game: the animated player sprite, its
/// position, the press counter and the position label.
#[derive(Clone, Debug)]
pub struct Game {
    pub sprite: AnimatedSprite,
    pub player: Player,
    pub position: Position,
    pub space: SpacePressed,
    pub trigger: TriggerEdge,
    pub position_label: PlayerPosition,
}

/// The frame range of the run animation.
pub open spec fn run_indices() -> AnimationIndices {
    AnimationIndices { first: INDEX_FIRST, last: INDEX_LAST }
}

impl Game {
    /// The sprite cycles through the run frames, the player stands on a
    /// reachable spot of the window, and the counter's label shows its count.
    pub open spec fn records_wf(&self) -> bool {
        &&& self.sprite.wf()
        &&& self.sprite.indices == run_indices()
        &&& reachable_x(self.position.x as int)
        &&& self.space.wf()
    }

    /// The records are well formed and the position label shows the
    /// player's position.
    pub open spec fn wf(&self) -> bool {
        &&& self.records_wf()
        &&& self.position_label.text@ == position_text(self.position)
    }

    /// Whether the trigger counts a press on a frame with `input`.
    pub open spec fn counts_press(&self, input: FrameInput) -> bool {
        input.space && !self.trigger.held
    }
}

/// The two labels: one showing `pos`, and the press counter at zero.
pub fn spawn_text(pos: &Position) -> (r: (PlayerPosition, SpacePressed))
    ensures
        r.0.text@ == position_text(*pos),
        r.1.wf(),
        r.1.times == 0,
{
    (PlayerPosition::new(pos), SpacePressed::new())
}

/// The game at startup: the sprite on the first run frame, the player idle
/// and facing right at the origin, no press counted.
pub fn setup() -> (r: Game)
    ensures
        r.wf(),
        r.sprite.index == INDEX_FIRST,
        r.sprite.elapsed_nanos == 0,
        r.player.state == PlayerState::IdleRight,
        r.position.x == 0,
        r.position.y == 0,
        r.space.times == 0,
        r.space.label@ == seq!['0'],
        !r.trigger.held,
{
    let position = Position::origin();
    let (position_label, space) = spawn_text(&position);
    Game {
        sprite: AnimatedSprite::new(AnimationIndices { first: INDEX_FIRST, last: INDEX_LAST }),
        player: Player { state: PlayerState::IdleRight },
        position,
        space,
        trigger: TriggerEdge::new(),
        position_label,
    }
}

/// Moves the player for the held direction keys and counts a fresh press of
/// the trigger.
pub fn keyboard_control(game: &mut Game, input: FrameInput)
    requires
        old(game).records_wf(),
        old(game).counts_press(input) ==> old(game).space.times < usize::MAX,
    ensures
        final(game).records_wf(),
        final(game).position.x == step_x(
            old(game).position.x as int,
            MoveInput { left: input.left, right: input.right },
        ),
        final(game).position.y == old(game).position.y,
        final(game).space.times == if old(game).counts_press(input) {
            old(game).space.times + 1
        } else {
            old(game).space.times as int
        },
        final(game).trigger.held == input.space,
        (final(game).trigger.held, final(game).space.times as nat) == trigger_step(
            old(game).trigger.held,
            old(game).space.times as nat,
            input.space,
        ),
        final(game).sprite == old(game).sprite,
        final(game).player == old(game).player,
        final(game).position_label.text@ == old(game).position_label.text@,
{
    move_player(&mut game.position, MoveInput { left: input.left, right: input.right });
    if game.trigger.just_pressed(input.space) {
        game.space.press();
    }
    proof {
        lemma_step_stays_in_window(
            old(game).position.x as int,
            MoveInput { left: input.left, right: input.right },
        );
    }
}

/// One frame of the game: the sprite animates, the keys move the player and
/// count presses, and the position label is rewritten. Every invariant of
/// the game holds again afterwards.
pub fn update(game: &mut Game, input: FrameInput)
    requires
        old(game).wf(),
        old(game).counts_press(input) ==> old(game).space.times < usize::MAX,
    ensures
        final(game).wf(),
        final(game).sprite == sprite_tick(old(game).sprite, input.delta_nanos),
        final(game).position.x == step_x(
            old(game).position.x as int,
            MoveInput { left: input.left, right: input.right },
        ),
        final(game).position.y == old(game).position.y,
        final(game).space.times == if old(game).counts_press(input) {
            old(game).space.times + 1
        } else {
            old(game).space.times as int
        },
        final(game).trigger.held == input.space,
        (final(game).trigger.held, final(game).space.times as nat) == trigger_step(
            old(game).trigger.held,
            old(game).space.times as nat,
            input.space,
        ),
        final(game).player == old(game).player,
{
    animate_sprite(&mut game.sprite, input.delta_nanos);
    keyboard_control(game, input);
    text_update_position(&mut game.position_label, &game.position);
}

} // verus!
