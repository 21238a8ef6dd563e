//! Tests of input snapshots, key bindings, the controller, the actor's
//! control step, and the per-tick game-state update.

use roll_play_ge::actor::{Actor, ActorDrawError, CharacterSheet, SpriteRect, WalkingSpriteChooser};
use roll_play_ge::controller::{ControlEvent, Controller, KEY_A, KEY_ESCAPE, KEY_S, KEY_W};
use roll_play_ge::game::Game;
use roll_play_ge::input::{Command, Input, InputError};
use roll_play_ge::model::Model;
use roll_play_ge::tilesheet::{PropertyValue, Tilesheet};

fn open_map() -> Tilesheet {
    // No layers at all: every coordinate is out of bounds, hence walkable.
    Tilesheet::from_parts(32, 32, 96, 32, vec![], vec![], None)
}

fn walled_map() -> Tilesheet {
    // One layer whose single tile is explicitly not walkable, 32x32 pixels.
    let layers = vec![vec![vec![1u32]]];
    let props = vec![(1, PropertyValue::BoolValue(false))];
    Tilesheet::from_parts(32, 32, 96, 32, layers, props, None)
}

#[test]
fn input_starts_cleared() {
    let input = Input::new();
    assert!(!input.up && !input.down && !input.left && !input.right);
    assert!(!input.attack && !input.defend && !input.menu);
}

#[test]
fn set_command_touches_one_field() {
    let mut input = Input::new();
    input.set_command(&Command::Defend, true);
    assert!(input.defend);
    assert!(!input.up && !input.down && !input.left && !input.right);
    assert!(!input.attack && !input.menu);
    input.set_command(&Command::Up, true);
    input.set_command(&Command::Defend, false);
    assert!(input.up && !input.defend);
}

#[test]
fn input_bits_round_trip() {
    let mut input = Input::new();
    input.set_command(&Command::Down, true);
    input.set_command(&Command::Menu, true);
    let bits = input.to_bits();
    assert_eq!(vec![false, true, false, false, false, false, true], bits);
    let back = Input::from_bitvec(bits).unwrap();
    assert_eq!(input, back);
}

#[test]
fn from_bitvec_rejects_wrong_length() {
    let r = Input::from_bitvec(vec![true, false, true]);
    assert_eq!(InputError::BadBitVec(3), r.err().unwrap());
    let r = Input::from_bitvec(vec![false; 8]);
    assert_eq!(InputError::BadBitVec(8), r.err().unwrap());
}

#[test]
fn controller_defaults() {
    let c = Controller::new();
    assert_eq!(90, c.walk_rate);
    assert_eq!(0, c.dt_ms);
    assert_eq!(Input::new(), c.input);
    // W and A both walk up: many-to-one binding.
    assert_eq!(7, c.keybinding.len());
    assert_eq!((KEY_W, Command::Up), c.keybinding[0]);
    assert_eq!((KEY_A, Command::Up), c.keybinding[1]);
}

#[test]
fn process_event_presses_and_releases() {
    let mut c = Controller::new();
    c.process_event(&ControlEvent::Press { key: KEY_S });
    assert!(c.input.down);
    c.process_event(&ControlEvent::Press { key: KEY_ESCAPE });
    assert!(c.input.menu);
    c.process_event(&ControlEvent::Release { key: KEY_S });
    assert!(!c.input.down && c.input.menu);
    // An unbound key changes nothing.
    c.process_event(&ControlEvent::Press { key: 9999 });
    assert_eq!((false, false, true), (c.input.up, c.input.down, c.input.menu));
    // An update replaces only the delta time.
    c.process_event(&ControlEvent::Update { dt_ms: 16 });
    assert_eq!(16, c.dt_ms);
    assert!(c.input.menu);
}

#[test]
fn control_moves_on_walkable_ground() {
    let map = open_map();
    let mut c = Controller::new();
    c.walk_rate = 90;
    c.dt_ms = 1000;
    c.input.set_command(&Command::Up, true);
    let mut actor = Actor::new();
    actor.control(&c, &map);
    // One second at 90 px/s: 90 pixels, i.e. 90000 millipixels, on the
    // vertical axis alone.
    assert_eq!((0, 90000), (actor.x, actor.y));
    assert_eq!((0, 90), (actor.vx, actor.vy));
}

#[test]
fn control_blocked_keeps_position_but_sets_velocity() {
    let map = walled_map();
    let mut c = Controller::new();
    c.dt_ms = 100;
    c.input.set_command(&Command::Right, true);
    let mut actor = Actor::new();
    // The proposed point (-9 px, 0 px) truncates into tile (0, 0), which is
    // not walkable: the position must not move.
    actor.control(&c, &map);
    assert_eq!((0, 0), (actor.x, actor.y));
    // The velocity still reflects the attempted direction.
    assert_eq!((-90, 0), (actor.vx, actor.vy));
}

#[test]
fn draw_reports_unknown_names() {
    let mut actor = Actor::new();
    let r = actor.draw("walk", 0);
    assert_eq!(ActorDrawError::NoSuchName, r.err().unwrap());
}

#[test]
fn insert_chooser_replaces_by_name() {
    let sheet = CharacterSheet::from_texture(96, 128, 3, 4).unwrap();
    let first = WalkingSpriteChooser::from_sheet(100, &sheet).unwrap();
    let second = WalkingSpriteChooser::from_sheet(300, &sheet).unwrap();
    let mut actor = Actor::new();
    assert!(actor.insert_chooser(String::from("walk"), first).is_none());
    // The same name again: the previous chooser comes back.
    assert!(actor.insert_chooser(String::from("walk"), second).is_some());
    // A different name: a fresh slot.
    let third = WalkingSpriteChooser::from_sheet(100, &sheet).unwrap();
    assert!(actor.insert_chooser(String::from("idle"), third).is_none());
}

#[test]
fn draw_steps_the_named_chooser() {
    let sheet = CharacterSheet::from_texture(96, 128, 3, 4).unwrap();
    let walk = WalkingSpriteChooser::from_sheet(200, &sheet).unwrap();
    let mut actor = Actor::new();
    actor.insert_chooser(String::from("walk"), walk);
    actor.vx = 7;
    // Moving right at t = 250 ms: phase slot 1, so row 1, column 1.
    let rect = actor.draw("walk", 250).unwrap();
    assert_eq!(SpriteRect { x: 32, y: 32, width: 32, height: 32 }, rect);
    // Stationary afterwards: the right-facing row is retained, idle column.
    actor.vx = 0;
    let rect = actor.draw("walk", 9999).unwrap();
    assert_eq!(SpriteRect { x: 32, y: 32, width: 32, height: 32 }, rect);
}

#[test]
fn game_tick_walks_the_hero_up() {
    // End to end: press the up key, give the tick a full second, and the
    // hero walks one walk-rate of 90 pixels along the vertical axis from the
    // origin; the walk chooser then faces the row the up key selects.
    let mut game = Game::new(open_map(), 96, 128).unwrap();
    let bits = game.next(&ControlEvent::Press { key: KEY_W });
    assert_eq!(vec![true, false, false, false, false, false, false], bits);
    // The press tick carried no delta time yet: nothing moved.
    assert_eq!((0, 0), (game.hero().x, game.hero().y));

    let bits = game.next(&ControlEvent::Update { dt_ms: 1000 });
    assert_eq!(vec![true, false, false, false, false, false, false], bits);
    assert_eq!(1000, game.game_time_ms());
    assert_eq!((0, 90000), (game.hero().x, game.hero().y));
    assert_eq!((0, 90), (game.hero().vx, game.hero().vy));

    // vy is positive, so the chooser selects row 3; at t = 1000 with the
    // 200 ms slot, the phase is (1000 % 800) / 200 = 1, column 1.
    let t = game.game_time_ms();
    let rect = game.hero_mut().draw("walk", t).unwrap();
    assert_eq!(SpriteRect { x: 32, y: 96, width: 32, height: 32 }, rect);
}

#[test]
fn game_rejects_uneven_hero_sheet() {
    let r = Game::new(open_map(), 97, 128);
    assert_eq!("texture width not divisible by tiles_wide", r.err().unwrap());
}

#[test]
fn game_time_accumulates_across_ticks() {
    let mut game = Game::new(open_map(), 96, 128).unwrap();
    game.next(&ControlEvent::Update { dt_ms: 16 });
    game.next(&ControlEvent::Update { dt_ms: 16 });
    // A press tick reuses the last delta time, as the running total does.
    game.next(&ControlEvent::Press { key: KEY_A });
    assert_eq!(48, game.game_time_ms());
}

#[test]
fn other_events_still_advance_time() {
    let mut game = Game::new(open_map(), 96, 128).unwrap();
    game.next(&ControlEvent::Update { dt_ms: 10 });
    // A render or idle tick carries no controller change, but the running
    // total still grows by the last delta time.
    game.next(&ControlEvent::Other);
    game.next(&ControlEvent::Other);
    assert_eq!(30, game.game_time_ms());
}

#[test]
fn model_starts_at_rest() {
    let m = Model::new();
    assert_eq!((0, 0, 0, 0), (m.x, m.y, m.vx, m.vy));
}
