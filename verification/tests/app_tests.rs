use player_app::app::{count_n_players, create_app, get_player_position, App, PLAYER_STEP};
use player_app::input::MouseButton;

#[test]
fn test_empty_app_has_no_players() {
    let app = App::new();
    assert_eq!(count_n_players(&app), 0);
}

#[test]
fn test_create_app_has_a_player() {
    let mut app = create_app(true);
    app.update();
    assert_eq!(count_n_players(&app), 1);
}

#[test]
fn test_player_is_at_origin() {
    let mut app = create_app(true);
    app.update();
    assert_eq!(get_player_position(&app), (0, 0));
}

#[test]
fn test_player_responds_to_mouse_wheel_press() {
    let mut app = create_app(true);
    assert!(app.input.is_some());
    app.update();

    // Not moved yet
    assert_eq!(get_player_position(&app), (0, 0));

    app.press(MouseButton::Middle);
    app.update();

    // Position must have changed now
    assert_ne!(get_player_position(&app), (0, 0));
}

#[test]
fn test_create_app_registers_both_steps() {
    let app = create_app(true);
    assert!(app.spawn_registered);
    assert!(app.respond_registered);
    assert!(!app.startup_done);
    assert_eq!(count_n_players(&app), 0);
}

#[test]
fn test_create_app_without_input_plugin_has_no_input_resource() {
    let app = create_app(false);
    assert!(app.input.is_none());
    assert_eq!(count_n_players(&app), 0);
}

#[test]
fn test_update_without_registered_steps_spawns_nothing() {
    let mut app = App::new();
    app.update();
    app.update();
    assert_eq!(count_n_players(&app), 0);
}

#[test]
fn test_spawned_player_has_sprite_transform_and_tag() {
    let mut app = create_app(true);
    app.update();
    assert_eq!(app.entities.len(), 1);
    let entity = &app.entities[0];
    assert!(entity.sprite.is_some());
    assert!(entity.player.is_some());
    let transform = entity.transform.expect("the player is spawned with a transform");
    assert_eq!(transform.scale.x, 64);
    assert_eq!(transform.scale.y, 32);
    assert_eq!(transform.scale.z, 1);
    assert_eq!(transform.translation.x, 0);
    assert_eq!(transform.translation.y, 0);
    assert_eq!(transform.translation.z, 0);
}

#[test]
fn test_position_stays_at_origin_across_ticks_without_press() {
    let mut app = create_app(true);
    app.update();
    app.update();
    app.update();
    app.update();
    assert_eq!(get_player_position(&app), (0, 0));
    assert_eq!(count_n_players(&app), 1);
}

#[test]
fn test_position_advances_one_step_per_tick_held() {
    let mut app = create_app(true);
    app.update();
    app.press(MouseButton::Middle);
    app.update();
    assert_eq!(get_player_position(&app), (PLAYER_STEP, 0));
    app.update();
    assert_eq!(get_player_position(&app), (2 * PLAYER_STEP, 0));
    assert_eq!(count_n_players(&app), 1);
}

#[test]
fn test_release_stops_the_movement() {
    let mut app = create_app(true);
    app.update();
    app.press(MouseButton::Middle);
    app.update();
    app.release(MouseButton::Middle);
    app.update();
    app.update();
    assert_eq!(get_player_position(&app), (PLAYER_STEP, 0));
}

#[test]
fn test_other_buttons_do_not_move_the_player() {
    let mut app = create_app(true);
    app.update();
    app.press(MouseButton::Left);
    app.press(MouseButton::Right);
    app.update();
    assert_eq!(get_player_position(&app), (0, 0));
}

#[test]
fn test_button_input_tracks_press_and_release() {
    let mut app = create_app(true);
    let input = app.input.as_ref().expect("the input plugin was added");
    assert!(!input.pressed(MouseButton::Middle));
    app.press(MouseButton::Middle);
    let input = app.input.as_ref().expect("the input plugin was added");
    assert!(input.pressed(MouseButton::Middle));
    assert!(!input.pressed(MouseButton::Left));
    app.release(MouseButton::Middle);
    let input = app.input.as_ref().expect("the input plugin was added");
    assert!(!input.pressed(MouseButton::Middle));
}
