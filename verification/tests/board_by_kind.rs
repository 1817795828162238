use tactical_squares::algebra_basics::{Coordinates, Size};
use tactical_squares::game_data::game_object::GameObjectType;
use tactical_squares::gameboard::{
    check_if_gameboard_object_is_selected, CharacterObject, Gameboard, GameboardObject,
    GameboardObjectOperation,
};
use tactical_squares::mocks::{setup_board_with_one_selectable_object, MockGameObject};
use tactical_squares::scalar::Scalar;

fn s(v: f64) -> Scalar {
    Scalar::from_raw((v * 4294967296.0) as i64)
}

fn point(x: f64, y: f64) -> Coordinates {
    Coordinates::new(s(x), s(y))
}

#[test]
fn add_object_returns_correct_id() {
    let mut gameboard = Gameboard::new();

    let mock_object = MockGameObject::new();
    let id = gameboard.add_object(GameObjectType::Selectable, mock_object);
    assert_eq!(id, 1);
}

#[test]
fn execute_operation_correct_id_returns_ok() {
    let mut gameboard = setup_board_with_one_selectable_object();
    let result =
        gameboard.execute_operation(1, GameboardObjectOperation::Idle, GameObjectType::Selectable);

    assert_eq!(result.is_ok(), true);
}

#[test]
fn execute_operation_incorrect_id_returns_err() {
    let mut gameboard = setup_board_with_one_selectable_object();
    let result =
        gameboard.execute_operation(3, GameboardObjectOperation::Idle, GameObjectType::Selectable);

    assert_eq!(result.is_err(), true);
}

#[test]
fn get_object_correct_id_returns_some() {
    let gameboard = setup_board_with_one_selectable_object();
    let result = gameboard.get_object(1);

    assert_eq!(result.is_some(), true);
}

#[test]
fn get_object_incorrct_id_returns_none() {
    let gameboard = setup_board_with_one_selectable_object();
    let result = gameboard.get_object(2);

    assert_eq!(result.is_none(), true);
}

fn setup_gameboard_with_one_character_object() -> Gameboard<CharacterObject> {
    let mut gameboard = Gameboard::new();
    let character_object = CharacterObject::new(point(0.0, 0.0), Size::new(s(0.0), s(0.0)));
    gameboard.add_object(GameObjectType::Selectable, character_object);
    gameboard
}

#[test]
fn character_object_move_operation_returns_ok_coordinates_change() {
    let mut gameboard = setup_gameboard_with_one_character_object();
    let operation = GameboardObjectOperation::Move(point(1.0, 1.0));
    let result = gameboard.execute_operation(1, operation, GameObjectType::Selectable);

    assert_eq!(result.is_ok(), true);

    let object = gameboard.get_object(1).unwrap();
    let position = object.get_position();

    let expected_position = point(1.0, 1.0);

    assert_eq!(position, &expected_position);
}

#[test]
fn is_selected_coordinates_with_object_provided_object_is_returned() {
    let gameboard = setup_board_with_one_selectable_object();
    let coordinates = point(0.0, 0.0);

    let result = gameboard.is_selected(coordinates);
    assert_eq!(result.is_some(), true);
}

#[test]
fn is_selected_coordinates_with_no_object_provided_object_is_not_returned() {
    let gameboard = setup_board_with_one_selectable_object();
    let coordinates = point(60.0, 60.0);

    let result = gameboard.is_selected(coordinates);
    assert_eq!(result.is_none(), true);
}

#[test]
fn an_absent_object_is_named_in_the_error() {
    let mut gameboard = setup_board_with_one_selectable_object();
    assert_eq!(
        gameboard.execute_operation(1, GameboardObjectOperation::Idle, GameObjectType::Static),
        Err(String::from("No such object"))
    );
    assert_eq!(
        gameboard.execute_operation(
            9,
            GameboardObjectOperation::Move(point(1.0, 1.0)),
            GameObjectType::Selectable
        ),
        Err(String::from("No such object"))
    );
}

#[test]
fn identifiers_start_at_one_and_keep_their_kind() {
    let mut gameboard = Gameboard::new();
    assert!(gameboard.has_room());
    let a = gameboard.add_object(
        GameObjectType::Static,
        CharacterObject::new(point(0.0, 0.0), Size::new(s(10.0), s(10.0))),
    );
    let b = gameboard.add_object(
        GameObjectType::Selectable,
        CharacterObject::new(point(5.0, 5.0), Size::new(s(10.0), s(10.0))),
    );
    let c = gameboard.add_object(
        GameObjectType::Selectable,
        CharacterObject::new(point(6.0, 6.0), Size::new(s(10.0), s(10.0))),
    );
    assert_eq!((a, b, c), (1, 2, 3));
    assert_eq!(gameboard.get_object(a).unwrap().get_position(), &point(0.0, 0.0));
    assert_eq!(gameboard.get_object(c).unwrap().get_size(), &Size::new(s(10.0), s(10.0)));

    assert_eq!(gameboard.is_selected(point(1.0, 1.0)), None);
    assert_eq!(gameboard.is_selected(point(7.0, 7.0)), Some(2));
    gameboard.remove_object(2);
    assert!(gameboard.get_object(2).is_none());
    assert_eq!(gameboard.is_selected(point(7.0, 7.0)), Some(3));
    assert_eq!(gameboard.is_selected(point(5.5, 5.5)), None);
    gameboard.remove_object(7);
    assert_eq!(
        gameboard.add_object(
            GameObjectType::Interactable,
            CharacterObject::new(point(0.0, 0.0), Size::new(s(1.0), s(1.0)))
        ),
        4
    );
}

#[test]
fn a_move_changes_the_position_alone() {
    let mut object = CharacterObject::new(point(2.0, 3.0), Size::new(s(4.0), s(5.0)));
    assert_eq!(object.execute_operation(GameboardObjectOperation::Idle), Ok(()));
    assert_eq!(object.get_position(), &point(2.0, 3.0));
    assert_eq!(object.execute_operation(GameboardObjectOperation::Move(point(9.0, 8.0))), Ok(()));
    assert_eq!(object.get_position(), &point(9.0, 8.0));
    assert_eq!(object.get_size(), &Size::new(s(4.0), s(5.0)));

    let mut mock = MockGameObject::new();
    assert_eq!(mock.execute_operation(GameboardObjectOperation::Move(point(9.0, 8.0))), Ok(()));
    assert_eq!(mock.get_position(), &point(0.0, 0.0));
    assert_eq!(mock.get_size(), &Size::new(s(50.0), s(50.0)));
}

#[test]
fn selection_includes_the_boundary() {
    let object = CharacterObject::new(point(0.0, 0.0), Size::new(s(50.0), s(50.0)));
    assert!(check_if_gameboard_object_is_selected(&object, &point(50.0, 50.0)));
    assert!(check_if_gameboard_object_is_selected(&object, &point(0.0, 50.0)));
    assert!(!check_if_gameboard_object_is_selected(&object, &point(50.0, 50.5)));
}
