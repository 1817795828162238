use tactical_squares::algebra_basics::{Coordinates, Size};
use tactical_squares::game_data::game_object::{GameObject, GameObjectType};
use tactical_squares::game_data::gameboard::{
    check_if_object_area_contains_coordinates, Gameboard, GameboardObjectOperation,
};
use tactical_squares::scalar::Scalar;
use tactical_squares::testing::setup;

fn s(v: f64) -> Scalar {
    Scalar::from_raw((v * 4294967296.0) as i64)
}

fn point(x: f64, y: f64) -> Coordinates {
    Coordinates::new(s(x), s(y))
}

#[test]
fn gameboard_add_object_next_id_changes() {
    let mut gameboard = Gameboard::new();

    let id_pre_add = gameboard.upcoming_id();
    gameboard.add_object(setup::setup_selectable_object());
    let id_after_add = gameboard.upcoming_id();

    assert_ne!(id_pre_add, id_after_add);
}

#[test]
fn gameboard_remove_object_correct_id_object_is_removed() {
    let mut gameboard = setup::setup_gameboard_with_selectable_object();
    gameboard.remove_object(0);

    let get_result = gameboard.get_object_by_id(0);

    assert_eq!(get_result.is_none(), true);
}

#[test]
fn gameboard_get_object_by_id_correct_id_returns_some() {
    let gameboard = setup::setup_gameboard_with_selectable_object();
    let result = gameboard.get_object_by_id(0);

    assert_eq!(result.is_some(), true);
}

#[test]
fn gameboard_get_object_by_id_incorrect_id_returns_none() {
    let gameboard = setup::setup_gameboard_with_selectable_object();
    let result = gameboard.get_object_by_id(1);

    assert_eq!(result.is_none(), true);
}

#[test]
fn gameboard_execute_operation_move_objects_position_changes() {
    let mut gameboard = setup::setup_gameboard_with_selectable_object();
    let new_position = point(50.0, 50.0);
    let operation = GameboardObjectOperation::Move(new_position);

    gameboard.execute_operation(0, operation);
    let object = gameboard.get_object_by_id(0).unwrap();
    let expected_position = point(50.0, 50.0);

    assert_eq!(object.position, expected_position);
}

#[test]
fn check_if_object_area_contains_coordinates_correct_coordinates_returns_true() {
    let coordinates = point(25.0, 25.0);
    let object = setup::setup_selectable_object();

    let result = check_if_object_area_contains_coordinates(&object, &coordinates);

    assert_eq!(result, true);
}

#[test]
fn check_if_object_area_contains_coordinates_incorrect_coordinates_returns_false() {
    let coordinates = point(60.0, 60.0);
    let object = setup::setup_selectable_object();

    let result = check_if_object_area_contains_coordinates(&object, &coordinates);

    assert_eq!(result, false);
}

#[test]
fn object_area_includes_its_boundary() {
    let object = setup::setup_selectable_object();
    assert!(check_if_object_area_contains_coordinates(&object, &point(0.0, 0.0)));
    assert!(check_if_object_area_contains_coordinates(&object, &point(50.0, 50.0)));
    assert!(check_if_object_area_contains_coordinates(&object, &point(50.0, 0.0)));
    assert!(!check_if_object_area_contains_coordinates(&object, &point(50.5, 0.0)));
    assert!(!check_if_object_area_contains_coordinates(&object, &point(-0.5, 10.0)));
}

#[test]
fn identifiers_ascend_from_zero_and_are_not_reused() {
    let mut gameboard = Gameboard::new();
    assert_eq!(gameboard.upcoming_id(), 0);
    assert!(gameboard.has_room());
    assert_eq!(gameboard.add_object(setup::setup_selectable_object()), 0);
    assert_eq!(gameboard.add_object(setup::setup_selectable_object()), 1);
    gameboard.remove_object(1);
    assert_eq!(gameboard.add_object(setup::setup_selectable_object()), 2);
    assert_eq!(gameboard.upcoming_id(), 3);
    assert!(gameboard.get_object_by_id(1).is_none());
}

#[test]
fn moving_an_absent_object_changes_nothing() {
    let mut gameboard = setup::setup_gameboard_with_selectable_object();
    gameboard.execute_operation(7, GameboardObjectOperation::Move(point(9.0, 9.0)));
    assert_eq!(gameboard.get_all_objects(), vec![setup::setup_selectable_object()]);
    assert!(gameboard.get_object_by_id(7).is_none());
}

#[test]
fn moving_keeps_kind_and_size() {
    let mut gameboard = Gameboard::new();
    let id = gameboard.add_object(GameObject::new(
        GameObjectType::Static,
        point(1.0, 2.0),
        Size::new(s(3.0), s(4.0)),
    ));
    gameboard.execute_operation(id, GameboardObjectOperation::Move(point(5.0, 6.0)));
    assert_eq!(
        *gameboard.get_object_by_id(id).unwrap(),
        GameObject::new(GameObjectType::Static, point(5.0, 6.0), Size::new(s(3.0), s(4.0)))
    );
}

#[test]
fn querry_finds_the_first_object_in_the_order_of_identifiers() {
    let mut gameboard = Gameboard::new();
    let small = GameObject::new(GameObjectType::Selectable, point(0.0, 0.0), Size::new(s(1.0), s(1.0)));
    let wide = GameObject::new(GameObjectType::Static, point(0.0, 0.0), Size::new(s(9.0), s(9.0)));
    let other = GameObject::new(GameObjectType::Static, point(2.0, 2.0), Size::new(s(9.0), s(9.0)));
    gameboard.add_object(small);
    gameboard.add_object(wide);
    gameboard.add_object(other);

    let at = point(3.0, 3.0);
    let found = gameboard
        .querry_object(|_id: u32, object: &GameObject| check_if_object_area_contains_coordinates(object, &at));
    assert_eq!(found, Some((1, wide)));

    let found = gameboard
        .querry_object(|id: u32, _object: &GameObject| id == 2);
    assert_eq!(found, Some((2, other)));

    let found = gameboard
        .querry_object(|_id: u32, object: &GameObject| object.object_type == GameObjectType::Interactable);
    assert_eq!(found, None);
}

#[test]
fn all_objects_come_in_the_order_of_identifiers() {
    let mut gameboard = Gameboard::new();
    let a = GameObject::new(GameObjectType::Selectable, point(0.0, 0.0), Size::new(s(1.0), s(1.0)));
    let b = GameObject::new(GameObjectType::Static, point(5.0, 0.0), Size::new(s(2.0), s(2.0)));
    let c = GameObject::new(GameObjectType::Interactable, point(9.0, 0.0), Size::new(s(3.0), s(3.0)));
    gameboard.add_object(a);
    gameboard.add_object(b);
    gameboard.add_object(c);
    gameboard.remove_object(1);
    assert_eq!(gameboard.get_all_objects(), vec![a, c]);
    assert_eq!(gameboard.get_all_entries(), vec![(0, a), (2, c)]);
}
