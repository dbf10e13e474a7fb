use top_down_controller::animation::{
    animation_system, set_player_animation, slice_for, Action, Actions, Animation,
    AnimationSlice, AnimationTimer, FRAME_PERIOD,
};
use top_down_controller::movement::{
    move_player, movement_system, Directions, Movement, Player, Position, PressedKeys,
};

fn keys(w: bool, a: bool, s: bool, d: bool) -> PressedKeys {
    PressedKeys { w, a, s, d }
}

#[test]
fn no_keys_give_zero_velocity_and_keep_facing() {
    let player = Player::new();
    let mut movement = Movement { x: 7, y: -3, direction: Directions::LEFT };
    move_player(&player, &mut movement, PressedKeys::none());
    assert_eq!((movement.x, movement.y), (0, 0));
    assert_eq!(movement.direction, Directions::LEFT);
}

#[test]
fn every_key_combination_sums_contributions() {
    let player = Player::new();
    for bits in 0u8..16 {
        let k = keys(bits & 1 != 0, bits & 2 != 0, bits & 4 != 0, bits & 8 != 0);
        let mut movement = Movement::new();
        move_player(&player, &mut movement, k);
        let c = |held: bool| if held { 50i64 } else { 0 };
        assert_eq!(movement.x, c(k.d) - c(k.a));
        assert_eq!(movement.y, c(k.w) - c(k.s));
    }
}

#[test]
fn diagonal_input_is_additive() {
    let player = Player::new();
    let mut movement = Movement::new();
    move_player(&player, &mut movement, keys(true, true, false, false));
    assert_eq!((movement.x, movement.y), (-50, 50));
    assert_eq!(movement.direction, Directions::LEFT);
}

#[test]
fn last_key_in_wasd_order_sets_facing() {
    let player = Player::new();
    let cases = [
        (keys(true, false, false, false), Directions::UP),
        (keys(true, true, false, false), Directions::LEFT),
        (keys(true, true, true, false), Directions::DOWN),
        (keys(true, true, true, true), Directions::RIGHT),
        (keys(false, true, true, false), Directions::DOWN),
        (keys(true, false, false, true), Directions::RIGHT),
    ];
    for (k, expected) in cases {
        let mut movement = Movement { x: 0, y: 0, direction: Directions::UP };
        move_player(&player, &mut movement, k);
        assert_eq!(movement.direction, expected);
    }
}

#[test]
fn opposite_keys_cancel() {
    let player = Player::new();
    let mut movement = Movement::new();
    move_player(&player, &mut movement, keys(true, true, true, true));
    assert_eq!((movement.x, movement.y), (0, 0));
}

#[test]
fn clear_keeps_direction() {
    let mut movement = Movement { x: 5, y: 9, direction: Directions::RIGHT };
    movement.clear();
    assert_eq!(movement, Movement { x: 0, y: 0, direction: Directions::RIGHT });
}

#[test]
fn one_step_moves_by_velocity_times_delta() {
    let mut position = Position { x: 1_000, y: -2_000 };
    let movement = Movement { x: 50, y: -50, direction: Directions::RIGHT };
    movement_system(&mut position, &movement, 16_000_000);
    assert_eq!(position, Position { x: 1_000 + 800_000_000, y: -2_000 - 800_000_000 });
}

#[test]
fn many_frames_do_not_drift() {
    let movement = Movement { x: 50, y: 0, direction: Directions::RIGHT };
    let mut stepped = Position { x: 0, y: 0 };
    for _ in 0..60 {
        movement_system(&mut stepped, &movement, 16_666_667);
    }
    let mut once = Position { x: 0, y: 0 };
    movement_system(&mut once, &movement, 60 * 16_666_667);
    assert_eq!(stepped, once);
    assert_eq!(stepped.x, 50 * 60 * 16_666_667);
}

#[test]
fn action_follows_velocity() {
    let cases = [
        ((0, 0), Actions::IDLE),
        ((50, 0), Actions::WALKING),
        ((0, -50), Actions::WALKING),
        ((50, 50), Actions::WALKING),
    ];
    for ((x, y), expected) in cases {
        let mut animation = Animation::new();
        set_player_animation(&mut animation, &Movement { x, y, direction: Directions::UP });
        assert_eq!(animation.state.action, Action(expected));
        assert_eq!(animation.state.direction, Directions::UP);
    }
}

#[test]
fn slice_table_per_direction() {
    assert_eq!(slice_for(Directions::DOWN), AnimationSlice { first: 0, last: 3 });
    assert_eq!(slice_for(Directions::UP), AnimationSlice { first: 4, last: 7 });
    assert_eq!(slice_for(Directions::LEFT), AnimationSlice { first: 8, last: 11 });
    assert_eq!(slice_for(Directions::RIGHT), AnimationSlice { first: 12, last: 15 });
}

#[test]
fn slice_ignores_prior_state() {
    let mut a = Animation::new();
    a.slice = AnimationSlice { first: 4, last: 7 };
    let mut b = Animation::new();
    b.slice = AnimationSlice { first: 8, last: 11 };
    let movement = Movement { x: 0, y: 0, direction: Directions::RIGHT };
    set_player_animation(&mut a, &movement);
    set_player_animation(&mut b, &movement);
    assert_eq!(a.slice, AnimationSlice { first: 12, last: 15 });
    assert_eq!(b.slice, a.slice);
}

#[test]
fn out_of_slice_index_snaps_to_first() {
    let mut animation = Animation::new();
    set_player_animation(&mut animation, &Movement::new());
    let mut index: usize = 10;
    animation_system(&mut animation, &mut index, 300_000_000);
    assert_eq!(index, 0);
    assert_eq!(animation.timer.elapsed, 0);
}

#[test]
fn right_held_half_a_second_advances_two_frames() {
    let mut animation = Animation::new();
    let movement = Movement { x: 50, y: 0, direction: Directions::RIGHT };
    let mut index: usize = 12;
    let mut seen = Vec::new();
    for _ in 0..5 {
        set_player_animation(&mut animation, &movement);
        animation_system(&mut animation, &mut index, 100_000_000);
        seen.push(index);
    }
    assert_eq!(seen, vec![12, 13, 13, 14, 14]);
    assert_eq!(animation.timer.elapsed, 100_000_000);
}

#[test]
fn index_reaches_slice_end_then_snaps_back() {
    let mut animation = Animation::new();
    let mut index: usize = 2;
    animation_system(&mut animation, &mut index, FRAME_PERIOD);
    assert_eq!(index, 3);
    animation_system(&mut animation, &mut index, FRAME_PERIOD);
    assert_eq!(index, 0);
}

#[test]
fn timer_keeps_remainder_of_long_frame() {
    let mut timer = AnimationTimer::repeating(FRAME_PERIOD);
    assert!(timer.tick(450_000_000));
    assert_eq!(timer.elapsed, 50_000_000);
    assert!(!timer.tick(100_000_000));
    assert_eq!(timer.elapsed, 150_000_000);
    assert!(timer.tick(50_000_000));
    assert_eq!(timer.elapsed, 0);
}

#[test]
fn initial_values() {
    let player = Player::new();
    assert_eq!((player.max_life, player.life, player.stats.movement_speed), (100, 100, 50));
    let animation = Animation::new();
    assert_eq!(animation.state.direction, Directions::DOWN);
    assert_eq!(animation.state.action, Action(Actions::IDLE));
    assert_eq!(animation.slice, AnimationSlice { first: 0, last: 3 });
    assert_eq!((animation.indices.first, animation.indices.last), (1, 15));
    assert_eq!(animation.frames, 4);
    assert_eq!(animation.timer.period, 200_000_000);
}
