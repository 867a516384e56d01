use sprite_game::animation::{
    animate_sprite, advance_index, AnimatedSprite, AnimationIndices, FRAME_INTERVAL_NANOS,
    INDEX_FIRST, INDEX_LAST,
};
use sprite_game::counter::{SpacePressed, TriggerEdge};
use sprite_game::game::{keyboard_control, setup, spawn_text, update, FrameInput};
use sprite_game::label::{format_position, text_update_position, PlayerPosition};
use sprite_game::movement::{move_player, MoveInput, Position, WINDOW_WIDTH};
use sprite_game::player::{spawn_camera, spawn_player, PlayerState};
use sprite_game::text::{decimal_string, push_signed_decimal};

fn idle(delta_nanos: u64) -> FrameInput {
    FrameInput { delta_nanos, left: false, right: false, space: false }
}

#[test]
fn startup_state() {
    let g = setup();
    assert_eq!(g.sprite.index, 33);
    assert_eq!(g.sprite.indices.first, 33);
    assert_eq!(g.sprite.indices.last, 40);
    assert_eq!(g.sprite.elapsed_nanos, 0);
    assert_eq!(g.position, Position { x: 0, y: 0 });
    assert_eq!(g.space.times, 0);
    assert_eq!(g.space.label, "0");
    assert_eq!(g.position_label.text, "0, 0");
    assert_eq!(g.player.state, PlayerState::IdleRight);
    assert!(!g.trigger.held);
}

#[test]
fn five_discrete_presses_count_five() {
    let mut g = setup();
    for _ in 0..5 {
        update(&mut g, FrameInput { delta_nanos: 0, left: false, right: false, space: true });
        update(&mut g, idle(0));
    }
    assert_eq!(g.space.times, 5);
    assert_eq!(g.space.label, "5");
}

#[test]
fn held_trigger_counts_once() {
    let mut g = setup();
    for _ in 0..10 {
        update(&mut g, FrameInput { delta_nanos: 0, left: false, right: false, space: true });
    }
    assert_eq!(g.space.times, 1);
    assert_eq!(g.space.label, "1");
    update(&mut g, idle(0));
    update(&mut g, FrameInput { delta_nanos: 0, left: false, right: false, space: true });
    assert_eq!(g.space.times, 2);
    assert_eq!(g.space.label, "2");
}

#[test]
fn trigger_edge_detection() {
    let mut t = TriggerEdge::new();
    assert!(!t.just_pressed(false));
    assert!(t.just_pressed(true));
    assert!(!t.just_pressed(true));
    assert!(!t.just_pressed(false));
    assert!(t.just_pressed(true));
}

#[test]
fn counter_press_relabels() {
    let mut c = SpacePressed::new();
    assert_eq!(c.label, "0");
    for _ in 0..12 {
        c.press();
    }
    assert_eq!(c.times, 12);
    assert_eq!(c.label, "12");
}

#[test]
fn position_label_scenario() {
    let pos = Position { x: 123, y: 0 };
    assert_eq!(format_position(&pos), "123, 0");
    let mut label = PlayerPosition::new(&Position { x: 0, y: 0 });
    assert_eq!(label.text, "0, 0");
    text_update_position(&mut label, &pos);
    assert_eq!(label.text, "123, 0");
}

#[test]
fn position_label_negative_coordinates() {
    assert_eq!(format_position(&Position { x: -10, y: -250 }), "-10, -250");
    assert_eq!(
        format_position(&Position { x: i64::MIN, y: i64::MAX }),
        "-9223372036854775808, 9223372036854775807"
    );
}

#[test]
fn position_label_follows_player() {
    let mut g = setup();
    for _ in 0..3 {
        update(&mut g, FrameInput { delta_nanos: 0, left: false, right: true, space: false });
        assert_eq!(g.position_label.text, format!("{}, {}", g.position.x, g.position.y));
    }
    assert_eq!(g.position_label.text, "30, 0");
}

#[test]
fn decimal_forms() {
    assert_eq!(decimal_string(0), "0");
    assert_eq!(decimal_string(7), "7");
    assert_eq!(decimal_string(10), "10");
    assert_eq!(decimal_string(1234567), "1234567");
    assert_eq!(decimal_string(u64::MAX), "18446744073709551615");
    let mut s = String::from("x=");
    push_signed_decimal(&mut s, -305);
    assert_eq!(s, "x=-305");
}

#[test]
fn frame_stays_in_range_over_many_ticks() {
    let mut g = setup();
    for i in 0..1000u64 {
        update(&mut g, idle(i * 7_000_000));
        assert!(g.sprite.index >= INDEX_FIRST && g.sprite.index <= INDEX_LAST);
        assert!(g.sprite.elapsed_nanos < FRAME_INTERVAL_NANOS);
    }
}

#[test]
fn animation_cycles_back_to_first() {
    let indices = AnimationIndices { first: INDEX_FIRST, last: INDEX_LAST };
    let mut s = AnimatedSprite::new(indices);
    for k in 1..8usize {
        animate_sprite(&mut s, FRAME_INTERVAL_NANOS);
        assert_eq!(s.index, INDEX_FIRST + k);
    }
    animate_sprite(&mut s, FRAME_INTERVAL_NANOS);
    assert_eq!(s.index, INDEX_FIRST);
}

#[test]
fn animation_accumulates_then_resets() {
    let mut s = AnimatedSprite::new(AnimationIndices { first: 33, last: 40 });
    animate_sprite(&mut s, 60_000_000);
    assert_eq!(s.index, 33);
    assert_eq!(s.elapsed_nanos, 60_000_000);
    animate_sprite(&mut s, 39_999_999);
    assert_eq!(s.index, 33);
    assert_eq!(s.elapsed_nanos, 99_999_999);
    animate_sprite(&mut s, 1);
    assert_eq!(s.index, 34);
    assert_eq!(s.elapsed_nanos, 0);
    animate_sprite(&mut s, u64::MAX);
    assert_eq!(s.index, 35);
    assert_eq!(s.elapsed_nanos, 0);
}

#[test]
fn advance_wraps_at_last() {
    let ind = AnimationIndices { first: 2, last: 4 };
    assert_eq!(advance_index(&ind, 2), 3);
    assert_eq!(advance_index(&ind, 4), 2);
    let single = AnimationIndices { first: 5, last: 5 };
    assert_eq!(advance_index(&single, 5), 5);
}

#[test]
fn movement_stays_in_window() {
    let mut g = setup();
    for _ in 0..200 {
        update(&mut g, FrameInput { delta_nanos: 0, left: false, right: true, space: false });
        assert!(g.position.x >= 0 && g.position.x <= WINDOW_WIDTH);
    }
    assert_eq!(g.position.x, 800);
    for _ in 0..200 {
        update(&mut g, FrameInput { delta_nanos: 0, left: true, right: false, space: false });
        assert!(g.position.x >= 0 && g.position.x <= WINDOW_WIDTH);
    }
    assert_eq!(g.position.x, 0);
    assert_eq!(g.position.y, 0);
}

#[test]
fn movement_boundaries() {
    let mut p = Position { x: 0, y: 3 };
    move_player(&mut p, MoveInput { left: true, right: false });
    assert_eq!(p, Position { x: 0, y: 3 });
    let mut p = Position { x: 790, y: 0 };
    move_player(&mut p, MoveInput { left: false, right: true });
    assert_eq!(p.x, 800);
    move_player(&mut p, MoveInput { left: false, right: true });
    assert_eq!(p.x, 800);
    let mut p = Position { x: 799, y: 0 };
    move_player(&mut p, MoveInput { left: false, right: true });
    assert_eq!(p.x, 809);
    let mut p = Position { x: 100, y: 0 };
    move_player(&mut p, MoveInput { left: true, right: true });
    assert_eq!(p.x, 100);
    let mut p = Position { x: 5, y: 0 };
    move_player(&mut p, MoveInput { left: true, right: false });
    assert_eq!(p.x, -5);
}

#[test]
fn keyboard_control_leaves_label_to_reporter() {
    let mut g = setup();
    keyboard_control(&mut g, FrameInput { delta_nanos: 0, left: false, right: true, space: true });
    assert_eq!(g.position.x, 10);
    assert_eq!(g.space.times, 1);
    assert_eq!(g.space.label, "1");
    assert_eq!(g.position_label.text, "0, 0");
    assert_eq!(g.sprite.index, 33);
}

#[test]
fn spawn_helpers() {
    let (player, pos) = spawn_player();
    assert_eq!(player.state, PlayerState::IdleLeft);
    assert_eq!(pos, Position { x: 0, y: 0 });
    assert_eq!(spawn_camera(), Position { x: 400, y: 250 });
    let (label, counter) = spawn_text(&Position { x: 40, y: 20 });
    assert_eq!(label.text, "40, 20");
    assert_eq!(counter.times, 0);
    assert_eq!(counter.label, "0");
}
