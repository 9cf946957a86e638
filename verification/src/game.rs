//! The per-frame state machine that multiplexes the two game modes over
//! one window. Each frame, the caller drains quit events, snapshots the
//! held keys into a [`HeldKeys`], and calls [`frame_step`]; the functions
//! here decide movement, collision corrections, mode transitions and menu
//! state, and report what the frame should display.

use vstd::prelude::*;
use crate::battle::{Battle, FULL_HEALTH, next_choice, prev_choice, wrap_choice_spec};
use crate::player::{Player, clamp};
use crate::rect::{Rect, overlaps, overlaps_at};

verus! {

/// Which subsystem owns the frame.
#[derive(Clone, Copy, PartialEq, Eq, Structural, Debug)]
pub enum Mode {
    Overworld,
    Battle,
}

/// A level-triggered snapshot of the keys held this frame. In the
/// overworld the four directions move the player; in battle, `left` and
/// `right` move the selection, `confirm` reports the selected move,
/// `retreat` returns to the overworld, and `drain` runs the debug
/// health-drain animation.
#[derive(Clone, Copy, PartialEq, Eq, Structural, Debug)]
pub struct HeldKeys {
    pub up: bool,
    pub left: bool,
    pub down: bool,
    pub right: bool,
    pub confirm: bool,
    pub retreat: bool,
    pub drain: bool,
}

/// All tuning values, fixed at startup: window size, movement speed and
/// bounds, the selection debounce length, the player's box size, and the
/// fixed obstacle and trigger rectangles of the overworld.
#[derive(Clone, Copy, PartialEq, Eq, Structural, Debug)]
pub struct Config {
    pub max_speed: i32,
    pub x_max: i32,
    pub y_max: i32,
    pub buffer_frames: u32,
    pub player_size: u32,
    pub cam_w: u32,
    pub cam_h: u32,
    pub gym1: Rect,
    pub gym2: Rect,
    pub battle_trigger: Rect,
}

impl Config {
    /// Machine limits on the tuning values: speeds and bounds are
    /// non-negative, and a position within bounds survives up to three
    /// undo steps of one move without leaving the i32 range.
    pub open spec fn wf(self) -> bool {
        &&& 0 <= self.max_speed
        &&& 0 <= self.x_max
        &&& 0 <= self.y_max
        &&& self.x_max + 3 * self.max_speed <= i32::MAX
        &&& self.y_max + 3 * self.max_speed <= i32::MAX
        &&& 3 * self.max_speed <= i32::MAX
    }
}

/// The demo's fixed tuning values: a 1280 by 720 camera, speed 5, a
/// 1250 by 700 movement bound, no debounce frames, a 48-pixel player box,
/// two gym obstacles, and the battle trigger zone.
pub open spec fn demo_config() -> Config {
    Config {
        max_speed: 5,
        x_max: 1250,
        y_max: 700,
        buffer_frames: 0,
        player_size: 48,
        cam_w: 1280,
        cam_h: 720,
        gym1: Rect { x: 340, y: 90, w: 150, h: 150 },
        gym2: Rect { x: 1110, y: 450, w: 150, h: 150 },
        battle_trigger: Rect { x: 835, y: 565, w: 32, h: 32 },
    }
}

impl Default for Config {
    /// The demo's fixed tuning values.
    fn default() -> (c: Config)
        ensures
            c == demo_config(),
            c.wf(),
    {
        Config {
            max_speed: 5,
            x_max: 1250,
            y_max: 700,
            buffer_frames: 0,
            player_size: 48,
            cam_w: 1280,
            cam_h: 720,
            gym1: Rect { x: 340, y: 90, w: 150, h: 150 },
            gym2: Rect { x: 1110, y: 450, w: 150, h: 150 },
            battle_trigger: Rect { x: 835, y: 565, w: 32, h: 32 },
        }
    }
}

/// All mutable state the loop owns: the current mode, the player, the
/// battle healths, the highlighted move slot, and the debounce countdown.
#[derive(Clone, Copy, PartialEq, Eq, Structural, Debug)]
pub struct GameState {
    pub mode: Mode,
    pub player: Player,
    pub battle: Battle,
    pub choice: i32,
    pub buffer: u32,
}

impl GameState {
    /// The highlighted move slot stays within the four slots.
    pub open spec fn wf(self) -> bool {
        0 <= self.choice <= 3
    }

    /// A fresh run: the game opens directly into the demo battle, with
    /// slot 0 highlighted, no debounce pending, both combatants at full
    /// health, and the player at the map origin.
    pub fn new(cfg: &Config) -> (s: GameState)
        ensures
            s.mode == Mode::Battle,
            s.choice == 0,
            s.buffer == 0,
            s.battle.player_health == FULL_HEALTH,
            s.battle.enemy_health == FULL_HEALTH,
            s.player == (Player { x: 0, y: 0, w: cfg.player_size, h: cfg.player_size }),
            s.wf(),
    {
        GameState {
            mode: Mode::Battle,
            player: Player::new(0, 0, cfg.player_size, cfg.player_size),
            battle: Battle::new(),
            choice: 0,
            buffer: 0,
        }
    }
}

/// The velocity the held keys ask for, under the fixed priority
/// up > left > down > right: one axis only, at full speed.
pub open spec fn velocity_spec(keys: HeldKeys, speed: int) -> (int, int) {
    if keys.up {
        (0, -speed)
    } else if keys.left {
        (-speed, 0)
    } else if keys.down {
        (0, speed)
    } else if keys.right {
        (speed, 0)
    } else {
        (0, 0)
    }
}

/// Maps the held keys to this frame's velocity, one axis at a time with
/// priority up > left > down > right; no diagonal movement.
pub fn velocity(keys: &HeldKeys, max_speed: i32) -> (v: (i32, i32))
    requires
        0 <= max_speed,
    ensures
        v.0 == velocity_spec(*keys, max_speed as int).0,
        v.1 == velocity_spec(*keys, max_speed as int).1,
{
    if keys.up {
        (0, -max_speed)
    } else if keys.left {
        (-max_speed, 0)
    } else if keys.down {
        (0, max_speed)
    } else if keys.right {
        (max_speed, 0)
    } else {
        (0, 0)
    }
}

/// Where an overworld frame leaves the player, and whether it entered
/// battle.
pub ghost struct OverworldOutcome {
    pub x: int,
    pub y: int,
    pub to_battle: bool,
}

/// One overworld frame on player `p`: apply the keyed velocity clamped
/// into the map bounds, build the moved collision box once, undo the move
/// against each gym the box overlaps (each undo subtracts the velocity
/// again), and on overlap with the battle trigger undo once more and
/// switch to battle.
pub open spec fn overworld_spec(p: Player, cfg: Config, keys: HeldKeys) -> OverworldOutcome {
    let v = velocity_spec(keys, cfg.max_speed as int);
    let mx = clamp(p.x + v.0, 0, cfg.x_max as int);
    let my = clamp(p.y + v.1, 0, cfg.y_max as int);
    let g1 = overlaps_at(mx, my, p.w as int, p.h as int, cfg.gym1);
    let x1 = if g1 { mx - v.0 } else { mx };
    let y1 = if g1 { my - v.1 } else { my };
    let g2 = overlaps_at(mx, my, p.w as int, p.h as int, cfg.gym2);
    let x2 = if g2 { x1 - v.0 } else { x1 };
    let y2 = if g2 { y1 - v.1 } else { y1 };
    let hit = overlaps_at(mx, my, p.w as int, p.h as int, cfg.battle_trigger);
    let x3 = if hit { x2 - v.0 } else { x2 };
    let y3 = if hit { y2 - v.1 } else { y2 };
    OverworldOutcome { x: x3, y: y3, to_battle: hit }
}

/// One overworld frame: moves the player by the keyed velocity clamped to
/// the map bounds, undoes the move against each overlapped gym, and on
/// touching the battle trigger undoes the move and switches to battle.
/// Only the player and the mode change.
pub fn overworld_step(state: &mut GameState, cfg: &Config, keys: &HeldKeys)
    requires
        cfg.wf(),
    ensures
        ({
            let o = overworld_spec(old(state).player, *cfg, *keys);
            &&& final(state).player.x == o.x
            &&& final(state).player.y == o.y
            &&& final(state).mode == (if o.to_battle {
                Mode::Battle
            } else {
                old(state).mode
            })
        }),
        final(state).player.w == old(state).player.w,
        final(state).player.h == old(state).player.h,
        final(state).battle == old(state).battle,
        final(state).choice == old(state).choice,
        final(state).buffer == old(state).buffer,
{
    let vel = velocity(keys, cfg.max_speed);
    state.player.move_by(vel, (0, cfg.x_max), (0, cfg.y_max));
    let pbox = state.player.collision_rect();
    if overlaps(&pbox, &cfg.gym1) {
        let nx: i32 = state.player.x() - vel.0;
        state.player.set_x(nx);
        let ny: i32 = state.player.y() - vel.1;
        state.player.set_y(ny);
    }
    if overlaps(&pbox, &cfg.gym2) {
        let nx: i32 = state.player.x() - vel.0;
        state.player.set_x(nx);
        let ny: i32 = state.player.y() - vel.1;
        state.player.set_y(ny);
    }
    if overlaps(&pbox, &cfg.battle_trigger) {
        state.mode = Mode::Battle;
        let nx: i32 = state.player.x() - vel.0;
        state.player.set_x(nx);
        let ny: i32 = state.player.y() - vel.1;
        state.player.set_y(ny);
    }
}

/// What a frame decided beyond the state change: whether a pending
/// debounce swallowed the input, the 1-indexed move number to report when
/// the confirm key is held, whether the frame leaves for the overworld
/// (the caller plays the fade-out), and whether the health-drain
/// animation ran (the caller replays it visually, step by step).
#[derive(Clone, Copy, PartialEq, Eq, Structural, Debug)]
pub struct FrameOutput {
    pub skipped: bool,
    pub status: Option<i32>,
    pub to_overworld: bool,
    pub drained: bool,
}

/// Where a battle frame leaves the menu and health state, and what it
/// reports.
pub ghost struct BattleOutcome {
    pub choice: int,
    pub buffer: int,
    pub player_health: int,
    pub enemy_health: int,
    pub to_overworld: bool,
    pub skipped: bool,
    pub status: Option<int>,
    pub drained: bool,
}

/// One battle frame on menu state `(choice, buffer)` and healths
/// `(ph, eh)`. A held left or right key that finds a positive debounce
/// counter skips the rest of the frame, the closing countdown included;
/// otherwise left and right each wrap the selection one slot and restart
/// the countdown, confirm reports the 1-indexed selection, retreat leaves
/// for the overworld, drain runs the health-drain animation to its end,
/// and a positive countdown finally ticks down by one.
pub open spec fn battle_spec(
    choice: int,
    buffer: int,
    ph: int,
    eh: int,
    cfg: Config,
    keys: HeldKeys,
) -> BattleOutcome {
    if keys.left && buffer > 0 {
        BattleOutcome {
            choice,
            buffer,
            player_health: ph,
            enemy_health: eh,
            to_overworld: false,
            skipped: true,
            status: None,
            drained: false,
        }
    } else {
        let c1 = if keys.left { wrap_choice_spec(choice - 1) } else { choice };
        let b1 = if keys.left { cfg.buffer_frames as int } else { buffer };
        if keys.right && b1 > 0 {
            BattleOutcome {
                choice: c1,
                buffer: b1,
                player_health: ph,
                enemy_health: eh,
                to_overworld: false,
                skipped: true,
                status: None,
                drained: false,
            }
        } else {
            let c2 = if keys.right { wrap_choice_spec(c1 + 1) } else { c1 };
            let b2 = if keys.right { cfg.buffer_frames as int } else { b1 };
            BattleOutcome {
                choice: c2,
                buffer: if b2 > 0 { b2 - 1 } else { b2 },
                player_health: if keys.drain { 100 } else { ph },
                enemy_health: if keys.drain { 0 } else { eh },
                to_overworld: keys.retreat,
                skipped: false,
                status: if keys.confirm { Some(c2 + 1) } else { None },
                drained: keys.drain,
            }
        }
    }
}

/// One battle frame: moves the selection by the held keys under the
/// debounce rule, reports the selected move while confirm is held,
/// switches back to the overworld on retreat, and runs the debug
/// health-drain animation on drain. Only the menu state, the healths and
/// the mode change.
pub fn battle_step(state: &mut GameState, cfg: &Config, keys: &HeldKeys) -> (out: FrameOutput)
    requires
        old(state).wf(),
    ensures
        final(state).wf(),
        ({
            let o = battle_spec(
                old(state).choice as int,
                old(state).buffer as int,
                old(state).battle.player_health as int,
                old(state).battle.enemy_health as int,
                *cfg,
                *keys,
            );
            &&& final(state).choice == o.choice
            &&& final(state).buffer == o.buffer
            &&& final(state).battle.player_health == o.player_health
            &&& final(state).battle.enemy_health == o.enemy_health
            &&& final(state).mode == (if o.to_overworld {
                Mode::Overworld
            } else {
                old(state).mode
            })
            &&& out.skipped == o.skipped
            &&& out.to_overworld == o.to_overworld
            &&& out.drained == o.drained
            &&& (match o.status {
                Some(n) => out.status == Some(n as i32),
                None => out.status is None,
            })
        }),
        final(state).player == old(state).player,
{
    if keys.left {
        if state.buffer > 0 {
            return FrameOutput { skipped: true, status: None, to_overworld: false, drained: false };
        }
        state.choice = prev_choice(state.choice);
        state.buffer = cfg.buffer_frames;
    }
    if keys.right {
        if state.buffer > 0 {
            return FrameOutput { skipped: true, status: None, to_overworld: false, drained: false };
        }
        state.choice = next_choice(state.choice);
        state.buffer = cfg.buffer_frames;
    }
    let status: Option<i32> = if keys.confirm {
        Some(state.choice + 1)
    } else {
        None
    };
    if keys.retreat {
        state.mode = Mode::Overworld;
    }
    if keys.drain {
        state.battle.run_drain();
    }
    if state.buffer > 0 {
        state.buffer = state.buffer - 1;
    }
    FrameOutput { skipped: false, status, to_overworld: keys.retreat, drained: keys.drain }
}

/// One frame: dispatches on the current mode to the overworld or battle
/// handler. An overworld frame reports nothing beyond its state change.
pub fn frame_step(state: &mut GameState, cfg: &Config, keys: &HeldKeys) -> (out: FrameOutput)
    requires
        cfg.wf(),
        old(state).wf(),
    ensures
        final(state).wf(),
        old(state).mode == Mode::Overworld ==> ({
            let o = overworld_spec(old(state).player, *cfg, *keys);
            &&& final(state).player.x == o.x
            &&& final(state).player.y == o.y
            &&& final(state).player.w == old(state).player.w
            &&& final(state).player.h == old(state).player.h
            &&& final(state).mode == (if o.to_battle {
                Mode::Battle
            } else {
                Mode::Overworld
            })
            &&& final(state).battle == old(state).battle
            &&& final(state).choice == old(state).choice
            &&& final(state).buffer == old(state).buffer
            &&& out == (FrameOutput {
                skipped: false,
                status: None,
                to_overworld: false,
                drained: false,
            })
        }),
        old(state).mode == Mode::Battle ==> ({
            let o = battle_spec(
                old(state).choice as int,
                old(state).buffer as int,
                old(state).battle.player_health as int,
                old(state).battle.enemy_health as int,
                *cfg,
                *keys,
            );
            &&& final(state).choice == o.choice
            &&& final(state).buffer == o.buffer
            &&& final(state).battle.player_health == o.player_health
            &&& final(state).battle.enemy_health == o.enemy_health
            &&& final(state).mode == (if o.to_overworld {
                Mode::Overworld
            } else {
                Mode::Battle
            })
            &&& final(state).player == old(state).player
            &&& out.skipped == o.skipped
            &&& out.to_overworld == o.to_overworld
            &&& out.drained == o.drained
            &&& (match o.status {
                Some(n) => out.status == Some(n as i32),
                None => out.status is None,
            })
        }),
{
    match state.mode {
        Mode::Overworld => {
            overworld_step(state, cfg, keys);
            FrameOutput { skipped: false, status: None, to_overworld: false, drained: false }
        },
        Mode::Battle => battle_step(state, cfg, keys),
    }
}

/// Touching the battle trigger undoes the whole move: when the moved box
/// overlaps the trigger but neither gym, and the move was not cut short
/// by the map bounds, the frame ends in battle mode with the player back
/// at its pre-move position.
pub proof fn lemma_battle_trigger_restores_position(p: Player, cfg: Config, keys: HeldKeys)
    requires
        cfg.wf(),
        ({
            let v = velocity_spec(keys, cfg.max_speed as int);
            &&& 0 <= p.x + v.0 <= cfg.x_max
            &&& 0 <= p.y + v.1 <= cfg.y_max
            &&& !overlaps_at(p.x + v.0, p.y + v.1, p.w as int, p.h as int, cfg.gym1)
            &&& !overlaps_at(p.x + v.0, p.y + v.1, p.w as int, p.h as int, cfg.gym2)
            &&& overlaps_at(p.x + v.0, p.y + v.1, p.w as int, p.h as int, cfg.battle_trigger)
        }),
    ensures
        overworld_spec(p, cfg, keys).to_battle,
        overworld_spec(p, cfg, keys).x == p.x,
        overworld_spec(p, cfg, keys).y == p.y,
{
}

} // verus!
