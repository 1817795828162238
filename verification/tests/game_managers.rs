use tactical_squares::algebra_basics::{Coordinates, Size};
use tactical_squares::game_controller::game_managers::{
    advance_movements, proces_movement, proces_movement_apply, process_player_movement,
    process_selection, select, start_movement, BasicStateContainer, UserInput,
};
use tactical_squares::game_controller::utils::{PistonEventTranslator, PressedButton, WindowEvent};
use tactical_squares::game_data::game_object::{GameObject, GameObjectType};
use tactical_squares::scalar::Scalar;
use tactical_squares::testing::setup;

fn s(v: f64) -> Scalar {
    Scalar::from_raw((v * 4294967296.0) as i64)
}

fn point(x: f64, y: f64) -> Coordinates {
    Coordinates::new(s(x), s(y))
}

#[test]
fn pprocess_player_movement_right_click_movement_added() {
    let mut state = setup::setup_game_state_with_one_object();
    state.basic_state.external_event = UserInput::RightMouse(point(50.0, 50.0));

    let state = process_player_movement(state);
    let movement_handlers = state.basic_state.movements;
    assert_eq!(movement_handlers.len(), 1);
}

#[test]
fn process_selection_left_click_on_selectable_selected_id_changes() {
    let mut state = setup::setup_game_state_with_one_object();
    let new_object =
        GameObject::new(GameObjectType::Selectable, point(100.0, 100.0), Size::new(s(50.0), s(50.0)));

    state.basic_state.gameboard.add_object(new_object);
    state.basic_state.external_event = UserInput::LeftMouse(point(125.0, 125.0));

    state = process_selection(state);
    let selected_id = state.basic_state.current_selected_id;

    assert_eq!(selected_id, 1);
}

#[test]
fn process_selection_manager_left_click_on_non_selectable_selected_id_doesent_change() {
    let mut state = setup::setup_game_state_with_one_object();

    state.basic_state.external_event = UserInput::LeftMouse(point(125.0, 125.0));

    state = process_selection(state);
    let selected_id = state.basic_state.current_selected_id;

    assert_eq!(selected_id, 0);
}

#[test]
fn selection_takes_the_lowest_identifier_under_the_click() {
    let mut state = setup::setup_game_state_with_one_object();
    let overlapping =
        GameObject::new(GameObjectType::Static, point(25.0, 25.0), Size::new(s(50.0), s(50.0)));
    state.basic_state.gameboard.add_object(overlapping);
    state.basic_state.current_selected_id = 1;

    state.basic_state.external_event = UserInput::LeftMouse(point(30.0, 30.0));
    select(&mut state.basic_state);
    assert_eq!(state.basic_state.current_selected_id, 0);

    state.basic_state.external_event = UserInput::LeftMouse(point(60.0, 60.0));
    select(&mut state.basic_state);
    assert_eq!(state.basic_state.current_selected_id, 1);

    state.basic_state.external_event = UserInput::RightMouse(point(30.0, 30.0));
    select(&mut state.basic_state);
    assert_eq!(state.basic_state.current_selected_id, 1);
}

#[test]
fn other_inputs_start_no_movement() {
    let mut state = setup::setup_game_state_with_one_object();
    state.basic_state.external_event = UserInput::LeftMouse(point(50.0, 50.0));
    start_movement(&mut state.basic_state);
    assert_eq!(state.basic_state.movements.len(), 0);
    state.basic_state.external_event = UserInput::D;
    let state = process_player_movement(state);
    assert_eq!(state.basic_state.movements.len(), 0);
}

#[test]
fn movements_carry_the_object_to_the_click_and_end() {
    let mut state = setup::setup_game_state_with_one_object();
    state.basic_state.external_event = UserInput::RightMouse(point(3.0, 0.0));
    state = process_player_movement(state);
    state.basic_state.external_event = UserInput::NoInputCursorPos(point(0.0, 0.0));
    assert_eq!(state.basic_state.movements[&0].waypoints_left(), 1);

    state = proces_movement(state);
    assert_eq!(state.basic_state.gameboard.get_object_by_id(0).unwrap().position, point(1.0, 0.0));
    state = proces_movement(state);
    assert_eq!(state.basic_state.gameboard.get_object_by_id(0).unwrap().position, point(2.0, 0.0));
    state = proces_movement(state);
    assert_eq!(state.basic_state.gameboard.get_object_by_id(0).unwrap().position, point(3.0, 0.0));
    assert_eq!(state.basic_state.movements.len(), 1);
    state = proces_movement(state);
    assert_eq!(state.basic_state.gameboard.get_object_by_id(0).unwrap().position, point(3.0, 0.0));
    assert_eq!(state.basic_state.movements.len(), 0);
    state = proces_movement(state);
    assert_eq!(state.basic_state.movements.len(), 0);
    assert_eq!(
        *state.basic_state.gameboard.get_object_by_id(0).unwrap(),
        GameObject::new(GameObjectType::Selectable, point(3.0, 0.0), Size::new(s(50.0), s(50.0)))
    );
}

#[test]
fn apply_names_the_movements_that_came_to_rest() {
    let mut state = setup::setup_game_state_with_one_object();
    let second =
        GameObject::new(GameObjectType::Selectable, point(100.0, 100.0), Size::new(s(5.0), s(5.0)));
    state.basic_state.gameboard.add_object(second);

    state.basic_state.external_event = UserInput::RightMouse(point(0.0, 0.0));
    start_movement(&mut state.basic_state);
    state.basic_state.current_selected_id = 1;
    state.basic_state.external_event = UserInput::RightMouse(point(100.0, 104.0));
    start_movement(&mut state.basic_state);
    assert_eq!(state.basic_state.movements.len(), 2);

    let ids = proces_movement_apply(&mut state.basic_state);
    assert_eq!(ids, vec![0]);
    assert_eq!(state.basic_state.movements.len(), 2);
    assert_eq!(state.basic_state.gameboard.get_object_by_id(1).unwrap().position, point(100.0, 101.0));
    assert_eq!(state.basic_state.gameboard.get_object_by_id(0).unwrap().position, point(0.0, 0.0));

    advance_movements(&mut state.basic_state);
    assert_eq!(state.basic_state.movements.len(), 1);
    assert_eq!(state.basic_state.gameboard.get_object_by_id(1).unwrap().position, point(100.0, 102.0));
}

#[test]
fn container_lends_its_state() {
    let mut state = setup::setup_game_state_with_one_object();
    state.get_basic_state().current_selected_id = 5;
    assert_eq!(state.basic_state.current_selected_id, 5);
}

#[test]
fn input_carries_the_cursor() {
    let at = point(1.0, 2.0);
    assert_eq!(UserInput::NoInputCursorPos(at).get_coordinates_if_mouse_input(), Some(&at));
    assert_eq!(UserInput::LeftMouse(at).get_coordinates_if_mouse_input(), Some(&at));
    assert_eq!(UserInput::RightMouse(at).get_coordinates_if_mouse_input(), Some(&at));
    assert_eq!(UserInput::D.get_coordinates_if_mouse_input(), None);
    assert_eq!(UserInput::C.get_coordinates_if_mouse_input(), None);
}

#[test]
fn translator_remembers_the_cursor() {
    let mut translator = PistonEventTranslator { current_cursor_pos: point(0.0, 0.0) };

    let moved = WindowEvent { cursor: Some(point(3.0, 4.0)), press: None };
    assert_eq!(
        translator.piston_event_to_internal_user_input(&moved),
        UserInput::NoInputCursorPos(point(3.0, 4.0))
    );
    assert_eq!(translator.current_cursor_pos, point(3.0, 4.0));

    let left = WindowEvent { cursor: None, press: Some(PressedButton::MouseLeft) };
    assert_eq!(
        translator.piston_event_to_internal_user_input(&left),
        UserInput::LeftMouse(point(3.0, 4.0))
    );
    let right = WindowEvent { cursor: Some(point(5.0, 6.0)), press: Some(PressedButton::MouseRight) };
    assert_eq!(
        translator.piston_event_to_internal_user_input(&right),
        UserInput::RightMouse(point(5.0, 6.0))
    );
    let d = WindowEvent { cursor: None, press: Some(PressedButton::KeyD) };
    assert_eq!(translator.piston_event_to_internal_user_input(&d), UserInput::D);
    let c = WindowEvent { cursor: None, press: Some(PressedButton::KeyC) };
    assert_eq!(translator.piston_event_to_internal_user_input(&c), UserInput::C);
    let other = WindowEvent { cursor: None, press: Some(PressedButton::Other) };
    assert_eq!(
        translator.piston_event_to_internal_user_input(&other),
        UserInput::NoInputCursorPos(point(5.0, 6.0))
    );
}
