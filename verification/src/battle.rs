//! Battle-screen state: the two combatants' health values, the four-slot
//! move selection with wraparound, the debug health-drain animation, and
//! the proportional health-bar fill. Name labels, sprites and fonts are
//! display resources held outside this crate.

use vstd::prelude::*;

verus! {

/// Health runs on a nominal scale of 0 to 100.
pub const FULL_HEALTH: u32 = 100;

/// The mutable state of the battle screen: the two combatants' health.
/// Values are nominally within 0 to 100; the setters do not enforce this.
#[derive(Clone, Copy, PartialEq, Eq, Structural, Debug)]
pub struct Battle {
    pub player_health: u32,
    pub enemy_health: u32,
}

impl Battle {
    /// A fresh battle: both combatants at full health.
    pub fn new() -> (b: Battle)
        ensures
            b == (Battle { player_health: FULL_HEALTH, enemy_health: FULL_HEALTH }),
    {
        Battle { player_health: FULL_HEALTH, enemy_health: FULL_HEALTH }
    }

    pub fn set_player_health(&mut self, h: u32)
        ensures
            *final(self) == (Battle { player_health: h, ..*old(self) }),
    {
        self.player_health = h;
    }

    pub fn set_enemy_health(&mut self, h: u32)
        ensures
            *final(self) == (Battle { enemy_health: h, ..*old(self) }),
    {
        self.enemy_health = h;
    }

    /// Applies step `i` of the debug health-drain animation: the enemy's
    /// health becomes `|i - 100|` while the player's is held at full.
    pub fn apply_drain_step(&mut self, i: u32)
        ensures
            final(self).enemy_health == drain_value_spec(i as int),
            final(self).player_health == FULL_HEALTH,
    {
        let v: u32 = drain_value(i);
        self.set_enemy_health(v);
        self.set_player_health(FULL_HEALTH);
    }

    /// Runs the debug health-drain animation to completion: steps 0
    /// through 100 applied in order, so the enemy's health ends at
    /// `|100 - 100| == 0` and the player's at full.
    pub fn run_drain(&mut self)
        ensures
            final(self).enemy_health == 0,
            final(self).player_health == FULL_HEALTH,
    {
        let mut i: u32 = 0;
        while i < 101
            invariant
                i <= 101,
                i > 0 ==> self.enemy_health == drain_value_spec(i - 1),
                i > 0 ==> self.player_health == FULL_HEALTH,
            decreases 101 - i,
        {
            self.apply_drain_step(i);
            i = i + 1;
        }
    }
}

/// The enemy health shown at step `i` of the drain animation: the
/// distance of `i` from 100.
pub open spec fn drain_value_spec(i: int) -> int {
    if i < 100 {
        100 - i
    } else {
        i - 100
    }
}

/// The enemy health at step `i` of the drain animation, `|i - 100|`.
pub fn drain_value(i: u32) -> (r: u32)
    ensures
        r == drain_value_spec(i as int),
{
    if i < 100 {
        100 - i
    } else {
        i - 100
    }
}

/// The drain animation starts at full enemy health, reaches empty exactly
/// at its last step, and never shows a value above full within its 101
/// steps.
pub proof fn lemma_drain_endpoints(i: int)
    requires
        0 <= i <= 100,
    ensures
        drain_value_spec(0) == 100,
        drain_value_spec(100) == 0,
        0 <= drain_value_spec(i) <= 100,
{
}

/// `c` wrapped into the selection range: above 3 becomes 0, below 0
/// becomes 3.
pub open spec fn wrap_choice_spec(c: int) -> int {
    if c > 3 {
        0
    } else if c < 0 {
        3
    } else {
        c
    }
}

/// The selection one step to the right of `c`, wrapping 3 around to 0.
pub open spec fn next_choice_spec(c: int) -> int {
    wrap_choice_spec(c + 1)
}

/// The selection one step to the left of `c`, wrapping 0 around to 3.
pub open spec fn prev_choice_spec(c: int) -> int {
    wrap_choice_spec(c - 1)
}

/// Moves the highlighted move one slot right, wrapping within the four
/// slots.
pub fn next_choice(c: i32) -> (r: i32)
    requires
        0 <= c <= 3,
    ensures
        r == next_choice_spec(c as int),
        0 <= r <= 3,
{
    let n: i32 = c + 1;
    if n > 3 {
        0
    } else if n < 0 {
        3
    } else {
        n
    }
}

/// Moves the highlighted move one slot left, wrapping within the four
/// slots.
pub fn prev_choice(c: i32) -> (r: i32)
    requires
        0 <= c <= 3,
    ensures
        r == prev_choice_spec(c as int),
        0 <= r <= 3,
{
    let n: i32 = c - 1;
    if n > 3 {
        0
    } else if n < 0 {
        3
    } else {
        n
    }
}

/// One step left from slot 0 lands on slot 3, one step right from slot 3
/// lands on slot 0, and four consecutive right steps return any slot to
/// itself.
pub proof fn lemma_selection_wraparound(c: int)
    requires
        0 <= c <= 3,
    ensures
        prev_choice_spec(0) == 3,
        next_choice_spec(3) == 0,
        next_choice_spec(next_choice_spec(next_choice_spec(next_choice_spec(c)))) == c,
{
}

/// The filled width of a health bar `full_width` pixels wide, for a
/// health value on the 0-to-100 scale: the fill is proportional to the
/// remaining health.
pub fn health_bar_width(health: u32, full_width: u32) -> (r: u32)
    requires
        health <= FULL_HEALTH,
    ensures
        r == health * full_width / 100,
        r <= full_width,
{
    proof {
        assert(health * full_width <= 100 * full_width) by (nonlinear_arith)
            requires
                health <= 100,
                0 <= full_width,
        ;
        assert(100 * full_width / 100 == full_width) by (nonlinear_arith)
            requires
                0 <= full_width,
        ;
        assert(health * full_width / 100 <= 100 * full_width / 100) by (nonlinear_arith)
            requires
                health * full_width <= 100 * full_width,
        ;
    }
    let wide: u64 = health as u64 * full_width as u64;
    let filled: u64 = wide / 100;
    filled as u32
}

} // verus!
