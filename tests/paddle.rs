use arkanoid::actions::Actions;
use arkanoid::paddle::{paddle_movement, PADDLE_SPEED};

#[test]
fn right_movement_test() {
    let paddle_x = 0;
    let mut x = paddle_x;
    let actions = Actions { player_movement: Some(1) };
    paddle_movement(&mut x, 50_000, None, &actions, 1_000_000, None);
    assert_eq!(x, paddle_x + PADDLE_SPEED);
}

#[test]
fn left_movement_test() {
    let paddle_x = 0;
    let mut x = paddle_x;
    let actions = Actions { player_movement: Some(-1) };
    paddle_movement(&mut x, 50_000, None, &actions, 1_000_000, None);
    assert_eq!(x, paddle_x - PADDLE_SPEED);
}

#[test]
fn paddle_stays_on_screen() {
    let mut x = 400_000;
    let actions = Actions { player_movement: Some(1) };
    paddle_movement(&mut x, 50_000, None, &actions, 1_000_000, Some(480_000));
    assert_eq!(x, 430_000);
    let actions = Actions { player_movement: Some(-1) };
    paddle_movement(&mut x, 50_000, None, &actions, 10_000_000, Some(480_000));
    assert_eq!(x, -430_000);
}

#[test]
fn paddle_jumps_to_cursor_then_moves() {
    let mut x = 0;
    let actions = Actions { player_movement: None };
    paddle_movement(&mut x, 50_000, Some(-120_000), &actions, 16_000, Some(480_000));
    assert_eq!(x, -120_000);
    let actions = Actions { player_movement: Some(1) };
    paddle_movement(&mut x, 50_000, Some(100_000), &actions, 16_000, Some(480_000));
    assert_eq!(x, 108_000);
}
