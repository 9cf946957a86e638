//! The player entity: a position and a fixed box size, moved each frame by
//! a velocity delta and clamped independently on each axis to a closed
//! interval. The drawable attached to the player lives outside this crate.

use vstd::prelude::*;
use crate::rect::Rect;

verus! {

/// `v` clamped into the closed interval `[lo, hi]`: values below `lo`
/// become `lo`, values above `hi` become `hi`.
pub open spec fn clamp(v: int, lo: int, hi: int) -> int {
    if v < lo {
        lo
    } else if v > hi {
        hi
    } else {
        v
    }
}

/// The player's position and collision-box size. The position may be set
/// out of bounds directly; only `move_by` clamps.
#[derive(Clone, Copy, PartialEq, Eq, Structural, Debug)]
pub struct Player {
    pub x: i32,
    pub y: i32,
    pub w: u32,
    pub h: u32,
}

impl Player {
    pub fn new(x: i32, y: i32, w: u32, h: u32) -> (p: Player)
        ensures
            p == (Player { x, y, w, h }),
    {
        Player { x, y, w, h }
    }

    pub fn x(&self) -> (r: i32)
        ensures
            r == self.x,
    {
        self.x
    }

    pub fn y(&self) -> (r: i32)
        ensures
            r == self.y,
    {
        self.y
    }

    pub fn width(&self) -> (r: u32)
        ensures
            r == self.w,
    {
        self.w
    }

    pub fn height(&self) -> (r: u32)
        ensures
            r == self.h,
    {
        self.h
    }

    /// Sets the x coordinate directly, without clamping; used to undo the
    /// x component of a blocked move.
    pub fn set_x(&mut self, x: i32)
        ensures
            *final(self) == (Player { x, ..*old(self) }),
    {
        self.x = x;
    }

    /// Sets the y coordinate directly, without clamping; used to undo the
    /// y component of a blocked move.
    pub fn set_y(&mut self, y: i32)
        ensures
            *final(self) == (Player { y, ..*old(self) }),
    {
        self.y = y;
    }

    /// Adds `delta` to the position, then clamps x into `x_bounds` and y
    /// into `y_bounds` independently. Never fails, whatever the delta's
    /// magnitude.
    pub fn move_by(&mut self, delta: (i32, i32), x_bounds: (i32, i32), y_bounds: (i32, i32))
        ensures
            final(self).x == clamp(old(self).x + delta.0, x_bounds.0 as int, x_bounds.1 as int),
            final(self).y == clamp(old(self).y + delta.1, y_bounds.0 as int, y_bounds.1 as int),
            final(self).w == old(self).w,
            final(self).h == old(self).h,
    {
        let nx: i64 = self.x as i64 + delta.0 as i64;
        let nx: i64 = if nx < x_bounds.0 as i64 {
            x_bounds.0 as i64
        } else if nx > x_bounds.1 as i64 {
            x_bounds.1 as i64
        } else {
            nx
        };
        assert(i32::MIN <= nx <= i32::MAX);
        self.x = nx as i32;
        let ny: i64 = self.y as i64 + delta.1 as i64;
        let ny: i64 = if ny < y_bounds.0 as i64 {
            y_bounds.0 as i64
        } else if ny > y_bounds.1 as i64 {
            y_bounds.1 as i64
        } else {
            ny
        };
        assert(i32::MIN <= ny <= i32::MAX);
        self.y = ny as i32;
    }

    /// The player's current collision rectangle.
    pub fn collision_rect(&self) -> (r: Rect)
        ensures
            r == (Rect { x: self.x, y: self.y, w: self.w, h: self.h }),
    {
        Rect::new(self.x, self.y, self.w, self.h)
    }
}

/// When the bounds are well ordered, a clamped coordinate lies within
/// them; so after `move_by`, each coordinate of the player lies within
/// its bounds, from any starting position and for any delta.
pub proof fn lemma_clamp_in_bounds(v: int, lo: int, hi: int)
    requires
        lo <= hi,
    ensures
        lo <= clamp(v, lo, hi) <= hi,
{
}

} // verus!
