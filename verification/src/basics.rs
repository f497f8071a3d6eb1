//! Playfield geometry: integer points and axis-aligned squares with
//! edge-clamped movement and the overlap test the collision logic uses.

use vstd::prelude::*;

verus! {

/// Width and height of the fixed playfield, in pixels.
pub const FIELD_EXTENT: i32 = 160;

/// A position on the playfield; origin is the top-left corner.
#[derive(Clone, Copy, PartialEq, Eq, Structural)]
pub struct Point {
    pub x: i32,
    pub y: i32,
}

/// An axis-aligned square occupying `[pos.x, pos.x+size) x [pos.y, pos.y+size)`.
#[derive(Clone, Copy, PartialEq, Eq, Structural)]
pub struct Square {
    pub pos: Point,
    pub size: u32,
}

/// A position component is inside the field when the whole extent of a box
/// of the given size fits, i.e. `0 <= pos <= FIELD_EXTENT - size`.
pub open spec fn in_field(pos: int, size: int) -> bool {
    0 <= pos && pos + size <= FIELD_EXTENT as int
}

/// Where a clamped move of `amt` from `pos` ends up for a box of `size`.
pub open spec fn clamped(pos: int, amt: int, size: int) -> int {
    if pos + amt < 0 {
        0
    } else if pos + amt > FIELD_EXTENT - size {
        FIELD_EXTENT - size
    } else {
        pos + amt
    }
}

/// Whether a move of `amt` from `pos` runs into a playfield edge.
pub open spec fn blocked(pos: int, amt: int, size: int) -> bool {
    pos + amt < 0 || pos + amt > FIELD_EXTENT - size
}

/// A rectangle for the drawing host to fill, in playfield coordinates.
/// The library computes what to draw; performing the fill stays outside.
#[derive(Clone, Copy, PartialEq, Eq, Structural)]
pub struct Rect {
    pub x: i32,
    pub y: i32,
    pub w: u32,
    pub h: u32,
}

/// The per-axis overlap rule: for the difference `d` between the two
/// positions, overlap holds when `d >= 0 && d <= b_size` or
/// `d < 0 && d > -a_size`. The rule is deliberately asymmetric (exact
/// edge-touch counts as overlap on one side only, depending on the sign of
/// `d`); collision and game-over timing depend on it, so it is kept
/// bit-for-bit rather than replaced by a symmetric interval test.
pub open spec fn axis_overlaps(a_pos: int, a_size: int, b_pos: int, b_size: int) -> bool {
    let d = a_pos - b_pos;
    if d >= 0 {
        d <= b_size
    } else {
        d > -a_size
    }
}

/// Two squares overlap when their projected intervals overlap on both axes,
/// by the asymmetric per-axis rule.
pub open spec fn spec_overlaps(a: Square, b: Square) -> bool {
    axis_overlaps(a.pos.x as int, a.size as int, b.pos.x as int, b.size as int)
        && axis_overlaps(a.pos.y as int, a.size as int, b.pos.y as int, b.size as int)
}

/// After one clamped move from any starting position, the position is
/// inside the field; by induction the same holds after any sequence of
/// clamped moves.
pub proof fn lemma_clamped_in_field(pos: int, amt: int, size: int)
    requires
        0 <= size <= FIELD_EXTENT as int,
    ensures
        in_field(clamped(pos, amt, size), size),
{
}

impl Square {
    /// The square's size fits the field and both position components keep
    /// its whole extent inside the field.
    pub open spec fn wf(self) -> bool {
        self.size <= FIELD_EXTENT as u32
            && in_field(self.pos.x as int, self.size as int)
            && in_field(self.pos.y as int, self.size as int)
    }

    /// The square's on-screen rectangle for this frame, for the drawing
    /// host to fill.
    pub fn draw(&self) -> (r: Rect)
        ensures
            r == (Rect { x: self.pos.x, y: self.pos.y, w: self.size, h: self.size }),
    {
        Rect { x: self.pos.x, y: self.pos.y, w: self.size, h: self.size }
    }

    /// Whether `self` overlaps `other` by the asymmetric per-axis rule of
    /// `spec_overlaps`. Not symmetric in its arguments when the sizes
    /// differ.
    pub fn overlaps(&self, other: &Square) -> (r: bool)
        requires
            self.wf(),
            other.wf(),
        ensures
            r == spec_overlaps(*self, *other),
    {
        let x_diff: i32 = self.pos.x - other.pos.x;
        let x_overlaps: bool = if x_diff >= 0 {
            x_diff <= other.size as i32
        } else {
            x_diff > -(self.size as i32)
        };

        let y_diff: i32 = self.pos.y - other.pos.y;
        let y_overlaps: bool = if y_diff >= 0 {
            y_diff <= other.size as i32
        } else {
            y_diff > -(self.size as i32)
        };

        x_overlaps && y_overlaps
    }

    /// Moves the square on the x-axis by `amt` (negative is left, positive
    /// is right), clamping at the playfield edges. Returns true if the move
    /// went through, false if it was blocked by an edge.
    pub fn move_x(&mut self, amt: i32) -> (moved: bool)
        requires
            old(self).size <= FIELD_EXTENT as u32,
            i32::MIN <= old(self).pos.x + amt <= i32::MAX,
        ensures
            final(self).pos.x == clamped(old(self).pos.x as int, amt as int, old(self).size as int),
            moved == !blocked(old(self).pos.x as int, amt as int, old(self).size as int),
            final(self).pos.y == old(self).pos.y,
            final(self).size == old(self).size,
            in_field(final(self).pos.x as int, final(self).size as int),
    {
        self.pos.x = self.pos.x + amt;
        if self.pos.x < 0 {
            self.pos.x = 0;
            return false;
        }
        let upper_limit: i32 = FIELD_EXTENT - self.size as i32;
        if self.pos.x > upper_limit {
            self.pos.x = upper_limit;
            return false;
        }
        true
    }

    /// Moves the square on the y-axis by `amt` (negative is up, positive is
    /// down), clamping at the playfield edges. Returns true if the move went
    /// through, false if it was blocked by an edge.
    pub fn move_y(&mut self, amt: i32) -> (moved: bool)
        requires
            old(self).size <= FIELD_EXTENT as u32,
            i32::MIN <= old(self).pos.y + amt <= i32::MAX,
        ensures
            final(self).pos.y == clamped(old(self).pos.y as int, amt as int, old(self).size as int),
            moved == !blocked(old(self).pos.y as int, amt as int, old(self).size as int),
            final(self).pos.x == old(self).pos.x,
            final(self).size == old(self).size,
            in_field(final(self).pos.y as int, final(self).size as int),
    {
        self.pos.y = self.pos.y + amt;
        if self.pos.y < 0 {
            self.pos.y = 0;
            return false;
        }
        let upper_limit: i32 = FIELD_EXTENT - self.size as i32;
        if self.pos.y > upper_limit {
            self.pos.y = upper_limit;
            return false;
        }
        true
    }
}

} // verus!
