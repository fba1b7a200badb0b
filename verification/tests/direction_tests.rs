use snake_core::direction::Direction;
use snake_core::game::GameState;

const ALL: [Direction; 4] = [
    Direction::Left,
    Direction::Up,
    Direction::Right,
    Direction::Down,
];

#[test]
fn opposite_pairs() {
    assert_eq!(Direction::Left.opposite(), Direction::Right);
    assert_eq!(Direction::Right.opposite(), Direction::Left);
    assert_eq!(Direction::Up.opposite(), Direction::Down);
    assert_eq!(Direction::Down.opposite(), Direction::Up);
}

#[test]
fn opposite_involutive() {
    for d in ALL {
        assert_eq!(d.opposite().opposite(), d);
    }
}

#[test]
fn opposite_never_identity() {
    for d in ALL {
        assert_ne!(d.opposite(), d);
    }
}

#[test]
fn input_priority_left_first() {
    // Left and Right held together: Left wins by priority, unless it would
    // reverse the current direction.
    let mut s = GameState::spawn_snake();
    s.head_direction = Direction::Up;
    s.snake_movement_input(true, false, false, true);
    assert_eq!(s.head_direction, Direction::Left);
}

#[test]
fn input_priority_reversal_rejected() {
    // Left and Right held together while travelling Right: the winning
    // candidate Left is the opposite, so the direction is unchanged.
    let mut s = GameState::spawn_snake();
    s.head_direction = Direction::Right;
    s.snake_movement_input(true, false, false, true);
    assert_eq!(s.head_direction, Direction::Right);
}

#[test]
fn input_no_key_retains_direction() {
    let mut s = GameState::spawn_snake();
    s.head_direction = Direction::Down;
    s.snake_movement_input(false, false, false, false);
    assert_eq!(s.head_direction, Direction::Down);
}

#[test]
fn input_never_reverses_any_combination() {
    for d in ALL {
        for mask in 0u8..16 {
            let mut s = GameState::spawn_snake();
            s.head_direction = d;
            s.snake_movement_input(mask & 1 != 0, mask & 2 != 0, mask & 4 != 0, mask & 8 != 0);
            assert_ne!(s.head_direction, d.opposite());
        }
    }
}

#[test]
fn input_priority_order() {
    // Current directions are chosen so the winning candidate is never a
    // reversal; the priority order alone decides.
    let cases: [(Direction, bool, bool, bool, bool, Direction); 4] = [
        (Direction::Up, true, true, true, true, Direction::Left),
        (Direction::Left, false, true, true, true, Direction::Down),
        (Direction::Left, false, false, true, true, Direction::Up),
        (Direction::Up, false, false, false, true, Direction::Right),
    ];
    for (current, left, down, up, right, expect) in cases {
        let mut s = GameState::spawn_snake();
        s.head_direction = current;
        s.snake_movement_input(left, down, up, right);
        assert_eq!(s.head_direction, expect);
    }
}
