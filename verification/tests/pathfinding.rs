use tactical_squares::algebra_basics::{Coordinates, RectangleVertexes, Size};
use tactical_squares::game_controller::pathfinding::{
    find_path, find_path_from, intersects_path, is_on_the_path, select_detour_corners, Corner,
    MovementDirection, MAX_DETOUR_DEPTH,
};
use tactical_squares::game_data::game_object::{GameObject, GameObjectType};
use tactical_squares::scalar::Scalar;

fn s(v: f64) -> Scalar {
    Scalar::from_raw((v * 4294967296.0) as i64)
}

fn point(x: f64, y: f64) -> Coordinates {
    Coordinates::new(s(x), s(y))
}

fn object(kind: GameObjectType, x: f64, y: f64, width: f64, height: f64) -> GameObject {
    GameObject::new(kind, point(x, y), Size::new(s(width), s(height)))
}

#[test]
fn find_path_goes_round_an_obstacle_on_the_line() {
    let obstacles = vec![object(GameObjectType::Static, 150.0, 100.0, 100.0, 100.0)];
    let start = point(100.0, 100.0);
    let destination = point(200.0, 100.0);

    let path = find_path(&start, &destination, &obstacles).unwrap();

    assert_eq!(path.len(), 3);
    assert_eq!(path, vec![start, destination, destination]);
    assert_eq!(path[path.len() - 1], destination);
}

#[test]
fn find_path_ignores_an_obstacle_behind_the_start() {
    let obstacles = vec![object(GameObjectType::Static, 100.0, 100.0, 100.0, 100.0)];
    let start = point(100.0, 100.0);
    let destination = point(200.0, 100.0);

    let path = find_path(&start, &destination, &obstacles).unwrap();

    assert_eq!(path.len(), 1);
    assert_eq!(path, vec![destination]);
}

#[test]
fn find_path_without_obstacles_is_the_destination() {
    let start = point(0.0, 0.0);
    let destination = point(30.0, 40.0);
    assert_eq!(find_path(&start, &destination, &vec![]), Some(vec![destination]));
}

#[test]
fn find_path_ignores_what_is_not_static() {
    let start = point(100.0, 100.0);
    let destination = point(200.0, 100.0);
    let obstacles = vec![
        object(GameObjectType::Selectable, 150.0, 100.0, 100.0, 100.0),
        object(GameObjectType::Interactable, 150.0, 100.0, 100.0, 100.0),
    ];
    assert_eq!(find_path(&start, &destination, &obstacles), Some(vec![destination]));
}

#[test]
fn find_path_nests_detours() {
    let start = point(0.0, 100.0);
    let destination = point(300.0, 100.0);
    let obstacles = vec![
        object(GameObjectType::Static, 200.0, 100.0, 50.0, 50.0),
        object(GameObjectType::Static, 220.0, 100.0, 50.0, 50.0),
    ];

    let path = find_path(&start, &destination, &obstacles).unwrap();

    assert_eq!(
        path,
        vec![start, point(200.0, 100.0), destination, destination, destination]
    );
}

#[test]
fn find_path_gives_up_where_detours_never_end() {
    let obstacles = vec![object(GameObjectType::Static, 150.0, 100.0, 100.0, 100.0)];
    let start = point(300.0, 100.0);
    let destination = point(100.0, 100.0);

    assert_eq!(find_path(&start, &destination, &obstacles), None);
    assert_eq!(
        find_path_from(
            &start,
            &destination,
            &obstacles,
            MovementDirection::Backward,
            MovementDirection::Still,
            MAX_DETOUR_DEPTH
        ),
        None
    );
    assert_eq!(
        find_path_from(
            &start,
            &destination,
            &obstacles,
            MovementDirection::Backward,
            MovementDirection::Still,
            0
        ),
        None
    );
}

#[test]
fn directions_compare_the_coordinates() {
    assert_eq!(MovementDirection::of(s(1.0), s(2.0)), MovementDirection::Forward);
    assert_eq!(MovementDirection::of(s(2.0), s(1.0)), MovementDirection::Backward);
    assert_eq!(MovementDirection::of(s(2.0), s(2.0)), MovementDirection::Still);
}

#[test]
fn anchors_between_current_and_destination_hold() {
    assert!(MovementDirection::Forward.holds_between(s(5.0), s(1.0), s(9.0)));
    assert!(!MovementDirection::Forward.holds_between(s(1.0), s(1.0), s(9.0)));
    assert!(!MovementDirection::Forward.holds_between(s(9.0), s(1.0), s(9.0)));
    assert!(MovementDirection::Backward.holds_between(s(5.0), s(9.0), s(1.0)));
    assert!(!MovementDirection::Backward.holds_between(s(9.0), s(9.0), s(1.0)));
    assert!(MovementDirection::Still.holds_between(s(50.0), s(1.0), s(1.0)));
}

#[test]
fn detour_corners_follow_the_sense_of_travel() {
    let forward = MovementDirection::Forward;
    let backward = MovementDirection::Backward;
    let still = MovementDirection::Still;
    assert_eq!(select_detour_corners(forward, still), (Corner::UpperLeft, Corner::LowerLeft));
    assert_eq!(select_detour_corners(backward, still), (Corner::LowerRight, Corner::UpperRight));
    assert_eq!(select_detour_corners(still, forward), (Corner::UpperRight, Corner::UpperLeft));
    assert_eq!(select_detour_corners(still, backward), (Corner::LowerLeft, Corner::LowerRight));
    assert_eq!(select_detour_corners(forward, forward), (Corner::UpperRight, Corner::LowerLeft));
    assert_eq!(select_detour_corners(forward, backward), (Corner::UpperLeft, Corner::LowerRight));
    assert_eq!(select_detour_corners(backward, forward), (Corner::LowerRight, Corner::UpperLeft));
    assert_eq!(select_detour_corners(backward, backward), (Corner::LowerLeft, Corner::UpperRight));
}

#[test]
fn corners_name_the_vertexes() {
    let vertexes = RectangleVertexes::get(&point(1.0, 2.0), &Size::new(s(10.0), s(20.0)));
    assert_eq!(Corner::UpperLeft.point(&vertexes), point(1.0, 2.0));
    assert_eq!(Corner::LowerLeft.point(&vertexes), point(1.0, 22.0));
    assert_eq!(Corner::UpperRight.point(&vertexes), point(11.0, 2.0));
    assert_eq!(Corner::LowerRight.point(&vertexes), point(11.0, 22.0));
}

#[test]
fn an_obstacle_is_on_the_path_when_ahead_on_both_axes() {
    let obstacle = object(GameObjectType::Static, 150.0, 150.0, 10.0, 10.0);
    let start = point(100.0, 100.0);
    let destination = point(200.0, 200.0);
    assert!(is_on_the_path(
        &obstacle,
        &start,
        &destination,
        MovementDirection::Forward,
        MovementDirection::Forward
    ));
    assert!(!is_on_the_path(
        &obstacle,
        &start,
        &destination,
        MovementDirection::Forward,
        MovementDirection::Backward
    ));
    assert!(!is_on_the_path(
        &obstacle,
        &destination,
        &start,
        MovementDirection::Forward,
        MovementDirection::Forward
    ));
}

#[test]
fn a_line_crosses_where_it_meets_every_edge_line_in_the_rectangle() {
    let obstacle = object(GameObjectType::Static, 150.0, 100.0, 100.0, 100.0);
    assert!(intersects_path(&obstacle, &point(100.0, 100.0), &point(200.0, 100.0)));
    assert!(intersects_path(&obstacle, &point(100.0, 150.0), &point(300.0, 150.0)));
    assert!(!intersects_path(&obstacle, &point(100.0, 50.0), &point(300.0, 50.0)));
    assert!(intersects_path(&obstacle, &point(200.0, 0.0), &point(200.0, 300.0)));
    assert!(intersects_path(&obstacle, &point(100.0, 50.0), &point(300.0, 250.0)));
    assert!(!intersects_path(&obstacle, &point(100.0, 100.0), &point(300.0, 150.0)));
}

#[test]
fn waypoints_are_the_start_the_destination_or_corners() {
    let start = point(0.0, 100.0);
    let destination = point(300.0, 100.0);
    let obstacles = vec![
        object(GameObjectType::Static, 200.0, 100.0, 50.0, 50.0),
        object(GameObjectType::Static, 220.0, 100.0, 50.0, 50.0),
        object(GameObjectType::Selectable, 100.0, 100.0, 50.0, 50.0),
    ];
    let mut allowed = vec![start, destination];
    for obstacle in obstacles.iter() {
        if obstacle.object_type == GameObjectType::Static {
            let vertexes = RectangleVertexes::get(&obstacle.position, &obstacle.size);
            allowed.push(vertexes.upper_left);
            allowed.push(vertexes.lower_left);
            allowed.push(vertexes.upper_right);
            allowed.push(vertexes.lower_right);
        }
    }

    let path = find_path(&start, &destination, &obstacles).unwrap();

    assert_eq!(path.len(), 5);
    assert_eq!(path[path.len() - 1], destination);
    for waypoint in path.iter() {
        assert!(allowed.contains(waypoint));
    }
}
