use arkanoid::actions::{
    call_input_events, get_movement, set_movement_actions, Actions, ControlInput, GameControl,
    InputEvent,
};
use arkanoid::boost::{boost_movement, ApplyBoostEvent, BoostType, FallingBoost};
use arkanoid::ball::Arena;
use arkanoid::cursor::follow_cursor;
use arkanoid::geometry::{isqrt, normalize, Vec2i};
use arkanoid::ui::{ButtonInteraction, Interaction};
use arkanoid::set_state_button;
use arkanoid::GameState;

#[test]
fn controls_read_their_keys() {
    let input = ControlInput { key_left: true, ..Default::default() };
    assert!(GameControl::Left.pressed(&input));
    assert!(!GameControl::Right.pressed(&input));
    assert!(!GameControl::Action.pressed(&input));
    let input = ControlInput { key_d: true, mouse_left_just_pressed: true, ..Default::default() };
    assert!(GameControl::Right.pressed(&input));
    assert!(GameControl::Action.pressed(&input));
    assert_eq!(get_movement(GameControl::Right, &input), 1);
    assert_eq!(get_movement(GameControl::Left, &input), 0);
}

#[test]
fn movement_is_right_minus_left() {
    let mut actions = Actions::default();
    set_movement_actions(&mut actions, &ControlInput { key_a: true, ..Default::default() });
    assert_eq!(actions.player_movement, Some(-1));
    set_movement_actions(&mut actions, &ControlInput { key_right: true, ..Default::default() });
    assert_eq!(actions.player_movement, Some(1));
    set_movement_actions(&mut actions, &ControlInput { key_a: true, key_d: true, ..Default::default() });
    assert_eq!(actions.player_movement, None);
}

#[test]
fn action_press_sends_primary_action() {
    let mut events = Vec::new();
    call_input_events(&mut events, &ControlInput { key_a: true, ..Default::default() });
    assert!(events.is_empty());
    call_input_events(&mut events, &ControlInput { space_just_pressed: true, ..Default::default() });
    assert_eq!(events, vec![InputEvent::PrimaryAction]);
}

#[test]
fn square_root_and_normalization() {
    assert_eq!(isqrt(0), 0);
    assert_eq!(isqrt(15), 3);
    assert_eq!(isqrt(16), 4);
    assert_eq!(isqrt(u128::MAX), u64::MAX as u128);
    assert_eq!(normalize(Vec2i::new(3, 4)), Vec2i::new(600_000, 800_000));
    assert_eq!(normalize(Vec2i::new(0, -7)), Vec2i::new(0, -1_000_000));
}

#[test]
fn caught_boost_is_applied_and_others_fall() {
    let mut boosts = vec![FallingBoost::new(), FallingBoost::new()];
    boosts[1].position = Vec2i::new(30_000, 100_000);
    let event = boost_movement(&mut boosts, Some(0), 100_000);
    assert_eq!(event, Some(ApplyBoostEvent { boost: BoostType::Life }));
    assert_eq!(boosts.len(), 1);
    assert_eq!(boosts[0].position, Vec2i::new(30_000, 85_000));
    let event = boost_movement(&mut boosts, None, 100_000);
    assert_eq!(event, None);
    assert_eq!(boosts[0].position, Vec2i::new(30_000, 70_000));
}

#[test]
fn button_releases_after_click() {
    let mut button = ButtonInteraction::new();
    button.update_button_interaction(Interaction::Hovered);
    assert!(!button.just_released);
    button.update_button_interaction(Interaction::Clicked);
    assert!(!button.just_released);
    button.update_button_interaction(Interaction::Hovered);
    assert!(button.just_released);
    let mut state = GameState::Menu;
    set_state_button(button.just_released, GameState::Playing, &mut state);
    assert_eq!(state, GameState::Playing);
    set_state_button(false, GameState::Help, &mut state);
    assert_eq!(state, GameState::Playing);
}

#[test]
fn cursor_moves_followers_to_world_coordinates() {
    let arena = Arena { half_width: 480_000, half_height: 270_000 };
    let mut followers = vec![Vec2i::new(1, 1)];
    follow_cursor(&mut followers, None, &arena);
    assert_eq!(followers, vec![Vec2i::new(1, 1)]);
    follow_cursor(&mut followers, Some(Vec2i::new(500_000, 100_000)), &arena);
    assert_eq!(followers, vec![Vec2i::new(20_000, -170_000)]);
}
