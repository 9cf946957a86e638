//! The battle menu, the health-drain animation, and the per-frame state
//! machine across both modes.

use monster_town::battle::{drain_value, health_bar_width, next_choice, prev_choice, Battle};
use monster_town::game::{frame_step, Config, GameState, HeldKeys, Mode};

fn no_keys() -> HeldKeys {
    HeldKeys {
        up: false,
        left: false,
        down: false,
        right: false,
        confirm: false,
        retreat: false,
        drain: false,
    }
}

#[test]
fn fresh_run_starts_in_battle_with_defaults() {
    let cfg = Config::default();
    let s = GameState::new(&cfg);
    assert_eq!(s.mode, Mode::Battle);
    assert_eq!(s.choice, 0);
    assert_eq!(s.buffer, 0);
    assert_eq!(s.battle.player_health, 100);
    assert_eq!(s.battle.enemy_health, 100);
}

#[test]
fn previous_from_slot_zero_wraps_to_three() {
    assert_eq!(prev_choice(0), 3);
    assert_eq!(prev_choice(2), 1);
}

#[test]
fn next_from_slot_three_wraps_to_zero() {
    assert_eq!(next_choice(3), 0);
    assert_eq!(next_choice(1), 2);
}

#[test]
fn four_next_steps_return_to_start() {
    for start in 0..4 {
        let mut c = start;
        for _ in 0..4 {
            c = next_choice(c);
        }
        assert_eq!(c, start);
    }
}

#[test]
fn drain_value_follows_distance_from_hundred() {
    assert_eq!(drain_value(0), 100);
    assert_eq!(drain_value(50), 50);
    assert_eq!(drain_value(100), 0);
    assert_eq!(drain_value(1), 99);
}

#[test]
fn drain_animation_ends_empty_with_player_untouched() {
    let mut b = Battle::new();
    b.run_drain();
    assert_eq!(b.enemy_health, 0);
    assert_eq!(b.player_health, 100);
}

#[test]
fn drain_steps_visit_full_then_empty() {
    let mut b = Battle::new();
    b.apply_drain_step(0);
    assert_eq!(b.enemy_health, 100);
    b.apply_drain_step(100);
    assert_eq!(b.enemy_health, 0);
    assert_eq!(b.player_health, 100);
}

#[test]
fn health_bar_fill_is_proportional() {
    assert_eq!(health_bar_width(100, 200), 200);
    assert_eq!(health_bar_width(50, 200), 100);
    assert_eq!(health_bar_width(0, 200), 0);
    assert_eq!(health_bar_width(33, 100), 33);
}

#[test]
fn battle_left_key_moves_selection_back() {
    let cfg = Config::default();
    let mut s = GameState::new(&cfg);
    let keys = HeldKeys { left: true, ..no_keys() };
    let out = frame_step(&mut s, &cfg, &keys);
    assert_eq!(s.choice, 3);
    assert!(!out.skipped);
    assert_eq!(out.status, None);
}

#[test]
fn battle_right_key_moves_selection_forward() {
    let cfg = Config::default();
    let mut s = GameState::new(&cfg);
    s.choice = 3;
    let keys = HeldKeys { right: true, ..no_keys() };
    frame_step(&mut s, &cfg, &keys);
    assert_eq!(s.choice, 0);
}

#[test]
fn battle_confirm_reports_one_indexed_move() {
    let cfg = Config::default();
    let mut s = GameState::new(&cfg);
    s.choice = 2;
    let keys = HeldKeys { confirm: true, ..no_keys() };
    let out = frame_step(&mut s, &cfg, &keys);
    assert_eq!(out.status, Some(3));
    assert_eq!(s.choice, 2);
}

#[test]
fn battle_retreat_returns_to_overworld() {
    let cfg = Config::default();
    let mut s = GameState::new(&cfg);
    let keys = HeldKeys { retreat: true, ..no_keys() };
    let out = frame_step(&mut s, &cfg, &keys);
    assert_eq!(s.mode, Mode::Overworld);
    assert!(out.to_overworld);
}

#[test]
fn battle_drain_key_runs_animation_to_the_end() {
    let cfg = Config::default();
    let mut s = GameState::new(&cfg);
    let keys = HeldKeys { drain: true, ..no_keys() };
    let out = frame_step(&mut s, &cfg, &keys);
    assert!(out.drained);
    assert_eq!(s.battle.enemy_health, 0);
    assert_eq!(s.battle.player_health, 100);
}

#[test]
fn pending_debounce_swallows_selection_and_does_not_tick() {
    let cfg = Config::default();
    let mut s = GameState::new(&cfg);
    s.buffer = 5;
    let keys = HeldKeys { left: true, ..no_keys() };
    let out = frame_step(&mut s, &cfg, &keys);
    assert!(out.skipped);
    assert_eq!(s.choice, 0);
    assert_eq!(s.buffer, 5);
}

#[test]
fn debounce_ticks_down_on_quiet_frames() {
    let mut cfg = Config::default();
    cfg.buffer_frames = 2;
    let mut s = GameState::new(&cfg);
    let left = HeldKeys { left: true, ..no_keys() };
    frame_step(&mut s, &cfg, &left);
    assert_eq!(s.choice, 3);
    assert_eq!(s.buffer, 1);
    let out = frame_step(&mut s, &cfg, &left);
    assert!(out.skipped);
    assert_eq!(s.choice, 3);
    assert_eq!(s.buffer, 1);
    frame_step(&mut s, &cfg, &no_keys());
    assert_eq!(s.buffer, 0);
    frame_step(&mut s, &cfg, &left);
    assert_eq!(s.choice, 2);
}

#[test]
fn overworld_right_key_moves_player() {
    let cfg = Config::default();
    let mut s = GameState::new(&cfg);
    s.mode = Mode::Overworld;
    s.player.x = 100;
    s.player.y = 300;
    let keys = HeldKeys { right: true, ..no_keys() };
    let out = frame_step(&mut s, &cfg, &keys);
    assert_eq!(s.player.x, 105);
    assert_eq!(s.player.y, 300);
    assert_eq!(s.mode, Mode::Overworld);
    assert!(!out.skipped && out.status.is_none());
}

#[test]
fn overworld_up_has_priority_over_other_directions() {
    let cfg = Config::default();
    let mut s = GameState::new(&cfg);
    s.mode = Mode::Overworld;
    s.player.x = 100;
    s.player.y = 300;
    let keys = HeldKeys { up: true, down: true, right: true, ..no_keys() };
    frame_step(&mut s, &cfg, &keys);
    assert_eq!(s.player.x, 100);
    assert_eq!(s.player.y, 295);
}

#[test]
fn overworld_movement_stops_at_map_edge() {
    let cfg = Config::default();
    let mut s = GameState::new(&cfg);
    s.mode = Mode::Overworld;
    s.player.x = 2;
    s.player.y = 300;
    let keys = HeldKeys { left: true, ..no_keys() };
    frame_step(&mut s, &cfg, &keys);
    assert_eq!(s.player.x, 0);
    assert_eq!(s.player.y, 300);
}

#[test]
fn gym_collision_undoes_the_move() {
    let cfg = Config::default();
    let mut s = GameState::new(&cfg);
    s.mode = Mode::Overworld;
    s.player.x = 288;
    s.player.y = 100;
    let keys = HeldKeys { right: true, ..no_keys() };
    frame_step(&mut s, &cfg, &keys);
    assert_eq!(s.player.x, 288);
    assert_eq!(s.player.y, 100);
    assert_eq!(s.mode, Mode::Overworld);
}

#[test]
fn battle_trigger_switches_mode_and_restores_position() {
    let cfg = Config::default();
    let mut s = GameState::new(&cfg);
    s.mode = Mode::Overworld;
    s.player.x = 783;
    s.player.y = 565;
    let keys = HeldKeys { right: true, ..no_keys() };
    frame_step(&mut s, &cfg, &keys);
    assert_eq!(s.mode, Mode::Battle);
    assert_eq!(s.player.x, 783);
    assert_eq!(s.player.y, 565);
}
