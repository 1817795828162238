use tactical_squares::algebra_basics::{Coordinates, Size, Vector};
use tactical_squares::game_controller::movement_manager::MovementHandler;
use tactical_squares::game_data::game_object::{GameObject, GameObjectType};
use tactical_squares::scalar::Scalar;

fn s(v: f64) -> Scalar {
    Scalar::from_raw((v * 4294967296.0) as i64)
}

fn point(x: f64, y: f64) -> Coordinates {
    Coordinates::new(s(x), s(y))
}

#[test]
fn movement_handler_poll_movement_position_changes_correctly() {
    let a = point(0.0, 0.0);
    let b = point(50.0, 50.0);
    let mut movement_handler = MovementHandler::start(a.clone(), b.clone(), &vec![]);

    let vector = Vector::get_vector(&a, &b);
    let unit_vector = Vector::to_unit_vector(&vector);

    let expected = Coordinates::new(a.x.plus(unit_vector.x), a.y.plus(unit_vector.y));
    let result = movement_handler.poll_movement();

    assert_eq!(result.unwrap(), expected);
}

#[test]
fn movement_handler_poll_movement_returns_none_when_destination_is_reached() {
    let a = point(0.0, 0.0);
    let b = point(10.0, 10.0);
    let mut movement_handler = MovementHandler::start(a.clone(), b.clone(), &vec![]);

    for _ in 0..14 {
        movement_handler.poll_movement();
    }

    assert_eq!(movement_handler.poll_movement().is_some(), true);
    assert_eq!(movement_handler.poll_movement().is_none(), true);
}

#[test]
fn poll_keeps_returning_none_after_the_end() {
    let mut movement_handler = MovementHandler::start(point(0.0, 0.0), point(3.0, 0.0), &vec![]);
    let mut ticks = 0;
    while movement_handler.poll_movement().is_some() {
        ticks += 1;
        assert!(ticks < 100);
    }
    assert_eq!(ticks, 3);
    let rest = movement_handler.position();
    assert_eq!(rest, point(3.0, 0.0));
    for _ in 0..5 {
        assert_eq!(movement_handler.poll_movement(), None);
        assert_eq!(movement_handler.position(), rest);
        assert_eq!(movement_handler.waypoints_left(), 0);
        assert!(movement_handler.is_reached());
    }
}

#[test]
fn poll_moves_one_unit_per_tick() {
    let mut movement_handler = MovementHandler::start(point(1.0, 1.0), point(4.0, 5.0), &vec![]);
    let first = movement_handler.poll_movement().unwrap();
    assert_eq!(first, Coordinates::new(Scalar::from_raw(6871947673), Scalar::from_raw(7730941132)));
    let second = movement_handler.poll_movement().unwrap();
    assert_eq!(second, Coordinates::new(Scalar::from_raw(9448928050), Scalar::from_raw(11166914968)));
}

#[test]
fn start_at_the_destination_ends_at_once() {
    let mut movement_handler = MovementHandler::start(point(7.0, 7.0), point(7.0, 7.0), &vec![]);
    assert_eq!(movement_handler.waypoints_left(), 1);
    assert!(movement_handler.is_reached());
    assert_eq!(movement_handler.poll_movement(), None);
    assert_eq!(movement_handler.waypoints_left(), 0);
    assert_eq!(movement_handler.poll_movement(), None);
}

#[test]
fn start_walks_the_planned_waypoints() {
    let obstacles = vec![GameObject::new(
        GameObjectType::Static,
        point(150.0, 100.0),
        Size::new(s(100.0), s(100.0)),
    )];
    let start = point(100.0, 100.0);
    let destination = point(103.0, 100.0);
    let free = MovementHandler::start(start, destination, &obstacles);
    assert_eq!(free.waypoints_left(), 1);

    let destination = point(200.0, 100.0);
    let mut movement_handler = MovementHandler::start(start, destination, &obstacles);
    assert_eq!(movement_handler.waypoints_left(), 3);
    assert!(movement_handler.is_reached());
    assert_eq!(movement_handler.poll_movement(), Some(point(101.0, 100.0)));
    assert_eq!(movement_handler.waypoints_left(), 2);
    assert!(!movement_handler.is_reached());
    for x in 2..=100 {
        assert_eq!(movement_handler.poll_movement(), Some(point(100.0 + x as f64, 100.0)));
    }
    assert_eq!(movement_handler.waypoints_left(), 2);
    assert_eq!(movement_handler.poll_movement(), Some(point(200.0, 100.0)));
    assert_eq!(movement_handler.waypoints_left(), 1);
    assert_eq!(movement_handler.poll_movement(), None);
    assert_eq!(movement_handler.waypoints_left(), 0);
    assert_eq!(movement_handler.position(), point(200.0, 100.0));
}

#[test]
fn start_without_a_path_has_nowhere_to_go() {
    let obstacles = vec![GameObject::new(
        GameObjectType::Static,
        point(150.0, 100.0),
        Size::new(s(100.0), s(100.0)),
    )];
    let mut movement_handler =
        MovementHandler::start(point(300.0, 100.0), point(100.0, 100.0), &obstacles);
    assert_eq!(movement_handler.waypoints_left(), 0);
    assert_eq!(movement_handler.poll_movement(), None);
    assert_eq!(movement_handler.position(), point(300.0, 100.0));
}

#[test]
fn negative_coordinates_are_not_taken_for_zero() {
    let a = point(-0.5, -0.5);
    let b = point(-3.0, -3.0);
    let mut movement_handler = MovementHandler::start(a, b, &vec![]);
    assert!(!movement_handler.is_reached());

    let unit_vector = Vector::to_unit_vector(&Vector::get_vector(&a, &b));
    let first = movement_handler.poll_movement();
    assert_eq!(first, Some(Coordinates::new(a.x.plus(unit_vector.x), a.y.plus(unit_vector.y))));
    assert_eq!(movement_handler.waypoints_left(), 1);

    let mut ticks = 1;
    while movement_handler.poll_movement().is_some() {
        ticks += 1;
        assert!(ticks < 100);
    }
    assert_eq!(ticks, 4);
    assert_eq!(movement_handler.position().x.truncated_to_whole(), -3);
    assert_eq!(movement_handler.position().y.truncated_to_whole(), -3);
    assert_eq!(movement_handler.waypoints_left(), 0);
}

#[test]
fn a_negative_waypoint_is_reached_at_its_own_whole_number() {
    let mut movement_handler = MovementHandler::start(point(-1.0, 0.0), point(-4.0, 0.0), &vec![]);
    assert!(!movement_handler.is_reached());
    assert_eq!(movement_handler.poll_movement(), Some(point(-2.0, 0.0)));
    assert!(!movement_handler.is_reached());
    assert_eq!(movement_handler.waypoints_left(), 1);
    assert_eq!(movement_handler.poll_movement(), Some(point(-3.0, 0.0)));
    assert!(!movement_handler.is_reached());
    assert_eq!(movement_handler.poll_movement(), Some(point(-4.0, 0.0)));
    assert!(movement_handler.is_reached());
    assert_eq!(movement_handler.poll_movement(), None);
    assert_eq!(movement_handler.position(), point(-4.0, 0.0));
}

#[test]
fn points_within_one_unit_of_zero_share_a_place() {
    let mut movement_handler = MovementHandler::start(point(-0.5, 0.5), point(0.5, -0.5), &vec![]);
    assert!(movement_handler.is_reached());
    assert_eq!(movement_handler.poll_movement(), None);
    assert_eq!(movement_handler.position(), point(-0.5, 0.5));
}
