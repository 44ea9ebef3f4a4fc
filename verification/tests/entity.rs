use arena_sim::action::{translate, ActionCode};
use arena_sim::entity::Player;
use arena_sim::render::{startup_style, Color, DrawCommand, Rect};

// Positions are in tenths of a unit of length: 5.5 is 55, 287.5 is 2875.
const ARENA: i64 = 6000;

fn start() -> Player {
    Player::new((ARENA - 250) / 2, ARENA - 1000, 500, 450, 55)
}

fn within(p: &Player) -> bool {
    p.width <= p.x && p.x <= ARENA - 2 * p.width && p.height <= p.y && p.y <= ARENA - 2 * p.height
}

#[test]
fn new_keeps_its_arguments() {
    let p = Player::new(1, -2, 3, 4, -5);
    assert_eq!((p.x, p.y, p.width, p.height, p.speed), (1, -2, 3, 4, -5));
}

#[test]
fn start_position_is_as_computed() {
    let p = start();
    assert_eq!(p.get_pos(), (2875, 5000));
}

#[test]
fn right_then_left_returns() {
    let mut p = start();
    p.update(ActionCode::Right, ARENA, ARENA);
    assert_eq!(p.get_pos(), (2930, 5000));
    p.update(ActionCode::Left, ARENA, ARENA);
    assert_eq!(p.get_pos(), (2875, 5000));
}

#[test]
fn right_then_left_in_floats() {
    let mut p = start();
    p.update(ActionCode::Right, ARENA, ARENA);
    assert_eq!(p.x as f64 / 10.0, 293.0);
    assert_eq!(p.y as f64 / 10.0, 500.0);
    p.update(ActionCode::Left, ARENA, ARENA);
    assert_eq!(p.x as f64 / 10.0, 287.5);
}

#[test]
fn up_at_the_bound_changes_nothing() {
    let mut p = Player::new(2875, 450, 500, 450, 55);
    p.update(ActionCode::Up, ARENA, ARENA);
    assert_eq!(p.get_pos(), (2875, 450));
}

#[test]
fn repeated_up_at_the_bound_stays() {
    let mut p = Player::new(2875, 450, 500, 450, 55);
    for _ in 0..100 {
        p.update(ActionCode::Up, ARENA, ARENA);
        assert_eq!(p.y, 450);
    }
    assert_eq!(p, Player::new(2875, 450, 500, 450, 55));
}

#[test]
fn up_moves_by_the_speed() {
    let mut p = start();
    p.update(ActionCode::Up, ARENA, ARENA);
    assert_eq!(p.get_pos(), (2875, 4945));
}

#[test]
fn up_stops_at_own_height() {
    let mut p = Player::new(2875, 480, 500, 450, 55);
    p.update(ActionCode::Up, ARENA, ARENA);
    assert_eq!(p.y, 450);
}

#[test]
fn down_moves_then_stops_at_twice_the_height() {
    let mut p = start();
    p.update(ActionCode::Down, ARENA, ARENA);
    assert_eq!(p.get_pos(), (2875, 5055));
    p.update(ActionCode::Down, ARENA, ARENA);
    assert_eq!(p.y, 5100);
    p.update(ActionCode::Down, ARENA, ARENA);
    assert_eq!(p.y, 5100);
}

#[test]
fn right_stops_at_twice_the_width() {
    let mut p = Player::new(4980, 5000, 500, 450, 55);
    p.update(ActionCode::Right, ARENA, ARENA);
    assert_eq!(p.x, 5000);
    p.update(ActionCode::Right, ARENA, ARENA);
    assert_eq!(p.x, 5000);
}

#[test]
fn left_stops_at_own_width() {
    let mut p = Player::new(530, 5000, 500, 450, 55);
    p.update(ActionCode::Left, ARENA, ARENA);
    assert_eq!(p.x, 500);
    p.update(ActionCode::Left, ARENA, ARENA);
    assert_eq!(p.x, 500);
}

#[test]
fn bounds_are_not_symmetric() {
    let mut p = Player::new(3000, 3000, 500, 450, 10_000);
    p.update(ActionCode::Left, ARENA, ARENA);
    assert_eq!(p.x, 500);
    p.update(ActionCode::Right, ARENA, ARENA);
    assert_eq!(p.x, 5000);
    p.update(ActionCode::Up, ARENA, ARENA);
    assert_eq!(p.y, 450);
    p.update(ActionCode::Down, ARENA, ARENA);
    assert_eq!(p.y, 5100);
}

#[test]
fn motionless_actions_change_nothing() {
    for action in [ActionCode::Primary, ActionCode::Idle, ActionCode::Unrecognized] {
        let mut p = start();
        p.update(action, ARENA, ARENA);
        assert_eq!(p, start());
        p.update(action, ARENA, ARENA);
        assert_eq!(p, start());
    }
}

#[test]
fn unmapped_key_moves_nothing() {
    let mut p = start();
    p.update(translate("q"), ARENA, ARENA);
    assert_eq!(p, start());
}

#[test]
fn a_move_changes_one_coordinate_only() {
    for action in [ActionCode::Up, ActionCode::Down] {
        let mut p = start();
        p.update(action, ARENA, ARENA);
        assert_eq!(p.x, 2875);
        assert_eq!((p.width, p.height, p.speed), (500, 450, 55));
    }
    for action in [ActionCode::Left, ActionCode::Right] {
        let mut p = start();
        p.update(action, ARENA, ARENA);
        assert_eq!(p.y, 5000);
        assert_eq!((p.width, p.height, p.speed), (500, 450, 55));
    }
}

#[test]
fn every_walk_stays_within_the_bounds() {
    let moves = [
        ActionCode::Up,
        ActionCode::Right,
        ActionCode::Down,
        ActionCode::Left,
        ActionCode::Primary,
        ActionCode::Idle,
        ActionCode::Unrecognized,
    ];
    let mut p = start();
    assert!(within(&p));
    let mut seed: u32 = 12345;
    for _ in 0..5000 {
        seed = seed.wrapping_mul(1664525).wrapping_add(1013904223);
        let action = moves[(seed >> 16) as usize % moves.len()];
        p.update(action, ARENA, ARENA);
        assert!(within(&p), "{:?} after {:?}", p, action);
    }
}

#[test]
fn long_runs_reach_each_bound() {
    let mut p = start();
    for _ in 0..200 {
        p.update(ActionCode::Up, ARENA, ARENA);
    }
    assert_eq!(p.y, 450);
    for _ in 0..200 {
        p.update(ActionCode::Down, ARENA, ARENA);
    }
    assert_eq!(p.y, 5100);
    for _ in 0..200 {
        p.update(ActionCode::Left, ARENA, ARENA);
    }
    assert_eq!(p.x, 500);
    for _ in 0..200 {
        p.update(ActionCode::Right, ARENA, ARENA);
    }
    assert_eq!(p.x, 5000);
}

#[test]
fn from_outside_a_move_ends_at_the_bound() {
    let mut p = Player::new(-40, 9000, 500, 450, 55);
    p.update(ActionCode::Left, ARENA, ARENA);
    assert_eq!(p.x, 500);
    p.update(ActionCode::Down, ARENA, ARENA);
    assert_eq!(p.y, 5100);
}

#[test]
fn coordinates_saturate_at_the_ends_of_the_range() {
    let mut p = Player::new(i64::MAX - 1, i64::MAX - 1, i64::MIN, i64::MIN, -10);
    p.update(ActionCode::Up, i64::MAX, i64::MAX);
    assert_eq!(p.y, i64::MAX);
    p.update(ActionCode::Left, i64::MAX, i64::MAX);
    assert_eq!(p.x, i64::MAX);

    let mut q = Player::new(i64::MIN + 1, i64::MIN + 1, i64::MAX, i64::MAX, -10);
    q.update(ActionCode::Right, i64::MIN, i64::MIN);
    assert_eq!(q.x, i64::MIN);
    q.update(ActionCode::Down, i64::MIN, i64::MIN);
    assert_eq!(q.y, i64::MIN);
}

#[test]
fn wide_bound_does_not_wrap() {
    let mut p = Player::new(0, 0, i64::MIN, i64::MIN, 7);
    p.update(ActionCode::Right, i64::MAX, i64::MAX);
    assert_eq!(p.x, 7);
    p.update(ActionCode::Down, i64::MAX, i64::MAX);
    assert_eq!(p.y, 7);
}

#[test]
fn set_pos_places_unclamped() {
    let mut p = start();
    p.set_pos((-7, 99_999));
    assert_eq!(p.get_pos(), (-7, 99_999));
    assert_eq!((p.width, p.height, p.speed), (500, 450, 55));
}

#[test]
fn draw_strokes_then_fills_the_body() {
    let p = start();
    let body = Rect { x: 2875, y: 5000, width: 500, height: 450 };
    assert_eq!(p.draw(), vec![DrawCommand::StrokeRect(body), DrawCommand::FillRect(body)]);
}

#[test]
fn draw_sets_no_style() {
    let mut p = start();
    for action in [ActionCode::Up, ActionCode::Right, ActionCode::Down, ActionCode::Left, ActionCode::Idle] {
        p.update(action, ARENA, ARENA);
        for command in p.draw() {
            assert!(
                !matches!(command, DrawCommand::SetStrokeStyle(_) | DrawCommand::SetFillStyle(_)),
                "{:?}",
                command
            );
        }
    }
}

#[test]
fn startup_style_is_yellow_outline_black_body() {
    assert_eq!(
        startup_style(),
        vec![DrawCommand::SetStrokeStyle(Color::Yellow), DrawCommand::SetFillStyle(Color::Black)]
    );
}
