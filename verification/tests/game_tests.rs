use snake_core::direction::Direction;
use snake_core::game::{Food, GameState, GrowthError, MOVEMENT_INTERVAL_MS};
use snake_core::position::{Position, ARENA_HEIGHT, ARENA_WIDTH};

fn pos(x: i32, y: i32) -> Position {
    Position { x, y }
}

#[test]
fn initial_state() {
    let s = GameState::spawn_snake();
    assert_eq!(s.segments.len(), 2);
    assert_eq!(s.segments[0].pos, pos(3, 3));
    assert_eq!(s.segments[1].pos, pos(3, 2));
    assert_eq!(s.head_direction, Direction::Up);
    assert_eq!(s.foods.len(), 0);
    assert_eq!(s.last_tail_position, None);
    assert_eq!(s.pending_growth, 0);
}

#[test]
fn movement_tick_scenario() {
    // Chain [head@(3,3,Up), seg@(3,2)]; one movement tick with direction Up
    // gives head@(3,4), seg@(3,3), and LastTailPosition (3,2).
    let mut s = GameState::spawn_snake();
    let fired = s.snake_movement(MOVEMENT_INTERVAL_MS);
    assert!(fired);
    assert_eq!(s.segments[0].pos, pos(3, 4));
    assert_eq!(s.segments[1].pos, pos(3, 3));
    assert_eq!(s.last_tail_position, Some(pos(3, 2)));
}

#[test]
fn movement_timer_accumulates() {
    let mut s = GameState::spawn_snake();
    assert!(!s.snake_movement(100));
    assert_eq!(s.segments[0].pos, pos(3, 3));
    assert!(!s.snake_movement(100));
    assert!(s.snake_movement(100));
    assert_eq!(s.segments[0].pos, pos(3, 4));
    assert_eq!(s.movement_timer.elapsed_ms, 0);
}

#[test]
fn movement_follow_the_leader_constant_direction() {
    // After N ticks with a constant direction and no growth, segment i has
    // moved by the per-tick delta taken (N - i) times.
    let mut s = GameState::spawn_snake();
    let start_head = s.segments[0].pos;
    for _ in 0..3 {
        assert!(s.snake_movement(MOVEMENT_INTERVAL_MS));
    }
    // Up increases y by one per tick.
    assert_eq!(s.segments[0].pos, pos(start_head.x, start_head.y + 3));
    assert_eq!(s.segments[1].pos, pos(start_head.x, start_head.y + 2));
}

#[test]
fn movement_segment_follows_predecessor() {
    let mut s = GameState::spawn_snake();
    assert!(s.snake_movement(MOVEMENT_INTERVAL_MS));
    let head_before = s.segments[0].pos;
    s.snake_movement_input(true, false, false, false);
    assert!(s.snake_movement(MOVEMENT_INTERVAL_MS));
    // Segment 1 takes the head's pre-tick cell, not its post-tick cell.
    assert_eq!(s.segments[1].pos, head_before);
    assert_eq!(s.segments[0].pos, pos(head_before.x - 1, head_before.y));
}

#[test]
fn eating_scenario() {
    // Head at (5,5), food at (5,5): the collision removes the food and
    // raises one growth signal; growth then extends the chain from 2 to 3
    // segments at the recorded last tail position.
    let mut s = GameState::spawn_snake();
    s.segments[0].pos = pos(5, 5);
    s.segments[1].pos = pos(5, 4);
    s.last_tail_position = Some(pos(5, 3));
    s.foods.push(Food { id: 10, pos: pos(5, 5) });
    s.next_id = 11;

    s.snake_eating();
    assert_eq!(s.foods.len(), 0);
    assert_eq!(s.pending_growth, 1);

    let r = s.snake_growth();
    assert_eq!(r, Ok(()));
    assert_eq!(s.segments.len(), 3);
    assert_eq!(s.segments[2].pos, pos(5, 3));
    assert_eq!(s.pending_growth, 0);
}

#[test]
fn eating_misses_food_elsewhere() {
    let mut s = GameState::spawn_snake();
    s.foods.push(Food { id: 10, pos: pos(7, 7) });
    s.next_id = 11;
    s.snake_eating();
    assert_eq!(s.foods.len(), 1);
    assert_eq!(s.pending_growth, 0);
}

#[test]
fn eating_two_foods_same_cell_grows_once() {
    // Two food items on the head's cell raise two signals; the growth pass
    // consumes exactly one and silently drops the rest of the batch.
    let mut s = GameState::spawn_snake();
    s.last_tail_position = Some(pos(3, 1));
    s.foods.push(Food { id: 10, pos: pos(3, 3) });
    s.foods.push(Food { id: 11, pos: pos(3, 3) });
    s.next_id = 12;

    s.snake_eating();
    assert_eq!(s.foods.len(), 0);
    assert_eq!(s.pending_growth, 2);

    let r = s.snake_growth();
    assert_eq!(r, Ok(()));
    assert_eq!(s.segments.len(), 3);
    assert_eq!(s.pending_growth, 0);

    // The dropped signal does not linger into a later pass.
    let r = s.snake_growth();
    assert_eq!(r, Ok(()));
    assert_eq!(s.segments.len(), 3);
}

#[test]
fn growth_without_signal_is_noop() {
    let mut s = GameState::spawn_snake();
    let r = s.snake_growth();
    assert_eq!(r, Ok(()));
    assert_eq!(s.segments.len(), 2);
}

#[test]
fn growth_before_first_tick_is_rejected() {
    // A pending signal before any movement tick has recorded a tail cell is
    // an invariant violation, reported as an error with the chain unchanged.
    let mut s = GameState::spawn_snake();
    s.pending_growth = 1;
    let r = s.snake_growth();
    assert_eq!(r, Err(GrowthError::NoTailRecorded));
    assert_eq!(s.segments.len(), 2);
    assert_eq!(s.pending_growth, 0);
}

#[test]
fn growth_monotone_chain_length() {
    let mut s = GameState::spawn_snake();
    let mut len = s.segments.len();
    for _ in 0..5 {
        assert!(s.snake_movement(MOVEMENT_INTERVAL_MS));
        let head = s.segments[0].pos;
        let id = s.next_id;
        s.foods.push(Food { id, pos: head });
        s.next_id = id + 1;
        s.snake_eating();
        let r = s.snake_growth();
        assert_eq!(r, Ok(()));
        assert_eq!(s.segments.len(), len + 1);
        len = s.segments.len();
    }
    assert_eq!(s.segments.len(), 7);
}

#[test]
fn new_segment_at_last_tail_position() {
    let mut s = GameState::spawn_snake();
    assert!(s.snake_movement(MOVEMENT_INTERVAL_MS));
    let tail = s.last_tail_position.unwrap();
    s.foods.push(Food { id: 10, pos: s.segments[0].pos });
    s.next_id = 11;
    s.snake_eating();
    let r = s.snake_growth();
    assert_eq!(r, Ok(()));
    assert_eq!(s.segments[2].pos, tail);
}

#[test]
fn food_spawner_in_arena() {
    // The spawner draws through the random source; whatever it returns, the
    // spawned cell lies within [0, ARENA_WIDTH) x [0, ARENA_HEIGHT).
    for _ in 0..50 {
        let mut s = GameState::spawn_snake();
        let spawned = s.food_spawner(1000);
        assert!(spawned);
        assert_eq!(s.foods.len(), 1);
        let p = s.foods[0].pos;
        assert!(0 <= p.x && p.x < ARENA_WIDTH as i32);
        assert!(0 <= p.y && p.y < ARENA_HEIGHT as i32);
    }
}

#[test]
fn food_spawner_waits_for_tick() {
    let mut s = GameState::spawn_snake();
    assert!(!s.food_spawner(999));
    assert_eq!(s.foods.len(), 0);
    assert!(s.food_spawner(1));
    assert_eq!(s.foods.len(), 1);
}

#[test]
fn segment_ids_are_stable_and_fresh() {
    let mut s = GameState::spawn_snake();
    let ids: Vec<u64> = s.segments.iter().map(|seg| seg.id).collect();
    assert!(s.snake_movement(MOVEMENT_INTERVAL_MS));
    let after: Vec<u64> = s.segments.iter().map(|seg| seg.id).collect();
    assert_eq!(ids, after);

    s.foods.push(Food { id: 2, pos: s.segments[0].pos });
    s.next_id = 3;
    s.snake_eating();
    s.snake_growth().unwrap();
    assert_eq!(s.segments[2].id, 3);
    assert_eq!(s.next_id, 4);
}

#[test]
fn snapshots_match_state() {
    let mut s = GameState::spawn_snake();
    s.foods.push(Food { id: 10, pos: pos(1, 2) });
    s.next_id = 11;
    let segs = s.segment_positions();
    assert_eq!(segs, vec![pos(3, 3), pos(3, 2)]);
    let foods = s.food_positions();
    assert_eq!(foods, vec![pos(1, 2)]);
}

#[test]
fn spawn_snake_segment_appends() {
    let mut s = GameState::spawn_snake();
    let id = s.spawn_snake_segment(pos(9, 9));
    assert_eq!(id, 2);
    assert_eq!(s.segments.len(), 3);
    assert_eq!(s.segments[2].pos, pos(9, 9));
    assert_eq!(s.next_id, 3);
}
