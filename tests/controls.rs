use mario::enemy::{Enemy, EnemyType};
use mario::geometry::Vec2;
use mario::object::Direction;
use mario::player::{Player, PLAYER_SPRITE_STANDING};
use mario::sprite::{id_to_player_sprite, sprite_source};
use mario::state::{GameMode, Key, MainState};
use mario::tilemap::EMPTY_SPRITE;

#[test]
fn new_game_starts_in_the_editor() {
    let s = MainState::new();
    assert_eq!(s.mode, GameMode::Editor);
    assert_eq!(s.editor.index, 0);
    assert_eq!(s.map.dimensions, (16, 16));
    assert_eq!(s.map.tiles.len(), 256);
    assert!(s.map.tiles.iter().all(|t| t.active && t.id == EMPTY_SPRITE));
    assert!(s.enemies.is_empty());
    assert_eq!(s.player.obj.pos, Vec2::new(0, 32000));
    assert_eq!(s.player.sprite_id, PLAYER_SPRITE_STANDING);
}

#[test]
fn editor_cursor_moves_and_wraps() {
    let mut s = MainState::new();
    s.key_down_editor(Key::A);
    assert_eq!(s.editor.index, 0);
    s.key_down_editor(Key::W);
    assert_eq!(s.editor.index, 240);
    s.key_down_editor(Key::S);
    assert_eq!(s.editor.index, 0);
    s.editor.index = 255;
    s.key_down_editor(Key::D);
    assert_eq!(s.editor.index, 0);
    s.editor.index = 250;
    s.key_down_editor(Key::S);
    assert_eq!(s.editor.index, 10);
    s.key_down_editor(Key::A);
    assert_eq!(s.editor.index, 9);
    s.key_down_editor(Key::D);
    assert_eq!(s.editor.index, 10);
    s.editor.index = 20;
    s.key_down_editor(Key::W);
    assert_eq!(s.editor.index, 4);
}

#[test]
fn editor_changes_the_selected_tile() {
    let mut s = MainState::new();
    s.editor.index = 3;
    s.key_down_editor(Key::Up);
    assert_eq!(s.map.tiles[3].id, 0);
    s.key_down_editor(Key::Up);
    assert_eq!(s.map.tiles[3].id, 1);
    s.key_down_editor(Key::Down);
    assert_eq!(s.map.tiles[3].id, 0);
    s.key_down_editor(Key::Down);
    assert_eq!(s.map.tiles[3].id, 0);
    s.key_down_editor(Key::X);
    assert_eq!(s.map.tiles[3].id, EMPTY_SPRITE);
    s.key_down_editor(Key::Down);
    assert_eq!(s.map.tiles[3].id, 0);
    s.map.set_tile_id(3, EMPTY_SPRITE - 1);
    s.key_down_editor(Key::Up);
    assert_eq!(s.map.tiles[3].id, 0);
    s.map.set_tile_id(3, 500);
    s.key_down_editor(Key::Down);
    assert_eq!(s.map.tiles[3].id, 499);
    assert_eq!(s.map.tiles[2].id, EMPTY_SPRITE);
    assert!(s.map.tiles[3].active);
}

#[test]
fn f1_switches_mode_and_r_respawns() {
    let mut s = MainState::new();
    s.key_down_event(Key::F1, false);
    assert_eq!(s.mode, GameMode::Play);
    s.player.obj.pos = Vec2::new(777, 888);
    s.key_down_event(Key::R, false);
    assert_eq!(s.player.obj.pos, Vec2::new(0, 32000));
    s.key_down_event(Key::F1, false);
    assert_eq!(s.mode, GameMode::Editor);
    s.key_down_event(Key::D, false);
    assert_eq!(s.editor.index, 1);
    assert!(!s.player.moving_right);
}

#[test]
fn play_keys_set_intent() {
    let mut s = MainState::new();
    s.mode = GameMode::Play;
    s.key_down_event(Key::D, false);
    assert!(s.player.moving_right);
    assert_eq!(s.player.obj.direction, Direction::Right);
    s.key_down_event(Key::A, false);
    assert!(s.player.moving_left);
    assert_eq!(s.player.obj.direction, Direction::Left);
    s.key_down_event(Key::LShift, false);
    assert!(s.player.obj.is_running);
    s.key_up_event(Key::LShift, false);
    assert!(!s.player.obj.is_running);
    s.key_up_event(Key::D, true);
    assert!(s.player.moving_right);
    s.key_up_event(Key::D, false);
    assert!(!s.player.moving_right);
    s.key_up_event(Key::A, false);
    assert!(!s.player.moving_left);
    s.key_down_event(Key::D, true);
    assert!(!s.player.moving_right);
}

#[test]
fn fast_reversal_starts_the_turn() {
    let mut s = MainState::new();
    s.mode = GameMode::Play;
    s.player.obj.velocity = Vec2::new(300, 0);
    s.key_down_play(Key::A, false);
    assert_eq!(s.player.turn_cycle, 20);
    s.player.turn_cycle = 0;
    s.player.obj.velocity = Vec2::new(-299, 0);
    s.key_down_play(Key::D, false);
    assert_eq!(s.player.turn_cycle, 0);
    s.player.obj.velocity = Vec2::new(-300, 0);
    s.key_down_play(Key::D, false);
    assert_eq!(s.player.turn_cycle, 20);
}

#[test]
fn jump_speed_grows_with_running_speed() {
    let mut s = MainState::new();
    s.mode = GameMode::Play;
    s.key_down_play(Key::Space, false);
    assert!(s.player.obj.is_jumping);
    assert_eq!(s.player.obj.velocity.y, 600);

    let mut s = MainState::new();
    s.player.obj.velocity = Vec2::new(-400, 0);
    s.key_down_play(Key::Space, false);
    assert_eq!(s.player.obj.velocity.y, 750);

    s.player.obj.velocity = Vec2::new(-400, 3);
    s.key_down_play(Key::Space, false);
    assert_eq!(s.player.obj.velocity.y, 3);
}

#[test]
fn releasing_jump_stops_the_rise() {
    let mut s = MainState::new();
    s.mode = GameMode::Play;
    s.key_down_event(Key::Space, false);
    s.key_up_event(Key::Space, false);
    assert!(!s.player.obj.is_jumping);
    assert!(s.player.obj.is_falling);
    assert_eq!(s.player.obj.velocity.y, 0);
}

#[test]
fn editor_ignores_key_release() {
    let mut s = MainState::new();
    s.player.moving_right = true;
    s.key_up_event(Key::D, false);
    assert!(s.player.moving_right);
}

#[test]
fn tick_runs_only_in_play() {
    let mut s = MainState::new();
    s.update();
    assert_eq!(s.player, Player::new());
    s.key_down_event(Key::F1, false);
    s.update();
    assert!(s.player.obj.is_falling);
}

#[test]
fn goomba_speeds_up_toward_its_facing() {
    let mut e = Enemy::new_goomba();
    assert_eq!(e.enemy_type, EnemyType::GOOMBA);
    assert_eq!(e.obj.bounds, Vec2::new(1600, 1600));
    let s = MainState::new();
    e.update(&s.map);
    assert_eq!(e.obj.velocity.x, 10);
    e.obj.direction = Direction::Left;
    e.update(&s.map);
    e.update(&s.map);
    assert_eq!(e.obj.velocity.x, -10);
}

#[test]
fn sprite_sheet_positions() {
    assert_eq!(id_to_player_sprite(0), (80, 2));
    assert_eq!(id_to_player_sprite(42), (80, 34));
    assert_eq!(id_to_player_sprite(47), (80 + 5 * 17, 34));
    assert_eq!(sprite_source(43, true), (80 + 17, 34));
    assert_eq!(sprite_source(35, false), (32, 16));
}
