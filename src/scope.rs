use vstd::prelude::*;

verus! {

/// Returns `v` bounded to `[lo, hi]`: `lo` when below, `hi` when above.
pub open spec fn clamp_spec(v: int, lo: int, hi: int) -> int {
    if v < lo {
        lo
    } else if v > hi {
        hi
    } else {
        v
    }
}

/// Bounds `v` to `[lo, hi]`, checking the lower bound first.
pub fn clamp(v: i32, lo: i32, hi: i32) -> (r: i32)
    ensures
        r == clamp_spec(v as int, lo as int, hi as int),
{
    if v < lo {
        lo
    } else if v > hi {
        hi
    } else {
        v
    }
}

/// A confinement rectangle: the half-open region `[x, x + w) x [y, y + h)`.
#[derive(Debug, Clone, Copy, PartialEq, Eq, Structural)]
pub struct ScopeRect {
    pub x: i32,
    pub y: i32,
    pub w: i32,
    pub h: i32,
}

impl ScopeRect {
    /// A rectangle is usable only with a positive width and height.
    pub open spec fn wf(self) -> bool {
        self.w > 0 && self.h > 0
    }

    /// Largest column inside the rectangle, kept within `i32`.
    pub open spec fn max_x(self) -> int {
        if self.x + self.w - 1 > i32::MAX {
            i32::MAX as int
        } else {
            self.x + self.w - 1
        }
    }

    /// Largest row inside the rectangle, kept within `i32`.
    pub open spec fn max_y(self) -> int {
        if self.y + self.h - 1 > i32::MAX {
            i32::MAX as int
        } else {
            self.y + self.h - 1
        }
    }

    pub open spec fn contains_spec(self, x: int, y: int) -> bool {
        self.x <= x < self.x + self.w && self.y <= y < self.y + self.h
    }

    pub open spec fn clamp_point_spec(self, x: int, y: int) -> (int, int) {
        (clamp_spec(x, self.x as int, self.max_x()), clamp_spec(y, self.y as int, self.max_y()))
    }

    /// Whether the rectangle is a valid scope (`w > 0` and `h > 0`).
    pub fn is_valid(&self) -> (r: bool)
        ensures
            r == self.wf(),
    {
        self.w > 0 && self.h > 0
    }

    /// Projects a point onto the closed range `[x, x + w - 1] x [y, y + h - 1]`.
    pub fn clamp_point(&self, x: i32, y: i32) -> (r: (i32, i32))
        requires
            self.wf(),
        ensures
            (r.0 as int, r.1 as int) == self.clamp_point_spec(x as int, y as int),
    {
        let max_x: i64 = self.x as i64 + self.w as i64 - 1;
        let max_y: i64 = self.y as i64 + self.h as i64 - 1;
        let max_x: i32 = if max_x > i32::MAX as i64 { i32::MAX } else { max_x as i32 };
        let max_y: i32 = if max_y > i32::MAX as i64 { i32::MAX } else { max_y as i32 };
        (clamp(x, self.x, max_x), clamp(y, self.y, max_y))
    }

    /// Half-open membership test.
    pub fn contains(&self, x: i32, y: i32) -> (r: bool)
        ensures
            r == self.contains_spec(x as int, y as int),
    {
        let x_end: i64 = self.x as i64 + self.w as i64;
        let y_end: i64 = self.y as i64 + self.h as i64;
        x >= self.x && y >= self.y && (x as i64) < x_end && (y as i64) < y_end
    }
}

/// Clamping a point into a valid scope always lands inside it.
pub proof fn lemma_clamp_point_inside(r: ScopeRect, x: i32, y: i32)
    requires
        r.wf(),
    ensures
        r.contains_spec(r.clamp_point_spec(x as int, y as int).0, r.clamp_point_spec(x as int, y as int).1),
{
}

/// A point already inside a valid scope is left where it is by clamping.
pub proof fn lemma_clamp_point_fixes_inside(r: ScopeRect, x: i32, y: i32)
    requires
        r.wf(),
        r.contains_spec(x as int, y as int),
    ensures
        r.clamp_point_spec(x as int, y as int) == (x as int, y as int),
{
}

} // verus!
