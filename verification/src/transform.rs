//! Placement arithmetic: a pane's recorded rectangle, the session's origin
//! and zoom, and the rectangle on the host surface that follows from them.

use vstd::prelude::*;

verus! {

/// The largest length, in pixels, that scaling hands out.
pub const PIXEL_MAX: u64 = 0xffff_ffff;

/// A zoom factor along one axis, kept exactly as the quotient `num / den`.
///
/// A resize of the global frame to `new` pixels against a reference of `base`
/// pixels gives `num == new` and `den == base`.
#[derive(Clone, Copy, Debug, PartialEq, Eq, Structural)]
pub struct Ratio {
    pub num: u32,
    pub den: u32,
}

/// A pane's own rectangle, as recorded in the registry.
#[derive(Clone, Copy, Debug, PartialEq, Eq, Structural)]
pub struct LocalRect {
    pub x: u64,
    pub y: u64,
    pub w: u32,
    pub h: u32,
}

/// A rectangle on the host surface, in pixels.
#[derive(Clone, Copy, Debug, PartialEq, Eq, Structural)]
pub struct AbsoluteRect {
    pub x: u64,
    pub y: u64,
    pub w: u64,
    pub h: u64,
}

/// The global transform of a session: an origin and a zoom per axis.
#[derive(Clone, Copy, Debug, PartialEq, Eq, Structural)]
pub struct Transform {
    pub ox: u32,
    pub oy: u32,
    pub zx: Ratio,
    pub zy: Ratio,
}

/// `v` scaled by `num / den`, rounded down and capped at `PIXEL_MAX`.
///
/// A zero denominator stands for an unbounded factor: whatever is not zero
/// is scaled to the cap, and zero stays zero.
pub open spec fn scaled(num: int, den: int, v: int) -> int {
    if den == 0 {
        if num == 0 || v == 0 {
            0
        } else {
            PIXEL_MAX as int
        }
    } else if (num * v) / den > PIXEL_MAX {
        PIXEL_MAX as int
    } else {
        (num * v) / den
    }
}

/// The sum of two coordinates, capped at the largest `u64`.
pub open spec fn capped_sum(a: int, b: int) -> int {
    if a + b > u64::MAX {
        u64::MAX as int
    } else {
        a + b
    }
}

impl Ratio {
    /// The factor one: nothing is scaled.
    pub open spec fn spec_identity() -> Ratio {
        Ratio { num: 1, den: 1 }
    }

    /// What `v` becomes under this factor.
    pub open spec fn scale(self, v: int) -> int {
        scaled(self.num as int, self.den as int, v)
    }

    #[verifier::when_used_as_spec(spec_identity)]
    pub fn identity() -> (r: Ratio)
        ensures
            r == Ratio::spec_identity(),
    {
        Ratio { num: 1, den: 1 }
    }

    /// Scales a length by this factor.
    pub fn apply(&self, v: u64) -> (r: u64)
        ensures
            r == self.scale(v as int),
            r <= PIXEL_MAX,
    {
        if self.den == 0 {
            if self.num == 0 || v == 0 {
                0
            } else {
                PIXEL_MAX
            }
        } else {
            let num: u128 = self.num as u128;
            let den: u128 = self.den as u128;
            let wide: u128 = v as u128;
            assert(num * wide <= 0xffff_ffff * 0xffff_ffff_ffff_ffff) by (nonlinear_arith)
                requires
                    0 <= num <= 0xffff_ffff,
                    0 <= wide <= 0xffff_ffff_ffff_ffff,
            ;
            let q: u128 = (num * wide) / den;
            if q > PIXEL_MAX as u128 {
                PIXEL_MAX
            } else {
                q as u64
            }
        }
    }
}

impl Transform {
    /// The transform of a fresh session: the given origin, zoom one.
    pub open spec fn spec_at(offset: (u32, u32)) -> Transform {
        Transform { ox: offset.0, oy: offset.1, zx: Ratio::spec_identity(), zy: Ratio::spec_identity() }
    }

    /// Where a pane with the recorded rectangle `local` stands on the host
    /// surface: the origin plus the scaled position, and the scaled size.
    pub open spec fn place(self, local: LocalRect) -> AbsoluteRect {
        AbsoluteRect {
            x: (self.ox + self.zx.scale(local.x as int)) as u64,
            y: (self.oy + self.zy.scale(local.y as int)) as u64,
            w: self.zx.scale(local.w as int) as u64,
            h: self.zy.scale(local.h as int) as u64,
        }
    }

    #[verifier::when_used_as_spec(spec_at)]
    pub fn at(offset: (u32, u32)) -> (t: Transform)
        ensures
            t == Transform::spec_at(offset),
    {
        Transform { ox: offset.0, oy: offset.1, zx: Ratio::identity(), zy: Ratio::identity() }
    }

    /// Computes the rectangle on the host surface for a recorded rectangle.
    pub fn absolute(&self, local: &LocalRect) -> (rect: AbsoluteRect)
        ensures
            rect == self.place(*local),
            rect.x == self.ox + self.zx.scale(local.x as int),
            rect.y == self.oy + self.zy.scale(local.y as int),
    {
        AbsoluteRect {
            x: self.ox as u64 + self.zx.apply(local.x),
            y: self.oy as u64 + self.zy.apply(local.y),
            w: self.zx.apply(local.w as u64),
            h: self.zy.apply(local.h as u64),
        }
    }
}

impl LocalRect {
    /// The rectangle recorded for a pane created at `(x, y)` while the
    /// global origin is `offset`: the origin is folded into the position.
    pub open spec fn spec_recorded(offset: (u32, u32), x: u32, y: u32, w: u32, h: u32) -> LocalRect {
        LocalRect { x: (offset.0 + x) as u64, y: (offset.1 + y) as u64, w, h }
    }

    #[verifier::when_used_as_spec(spec_recorded)]
    pub fn recorded(offset: (u32, u32), x: u32, y: u32, w: u32, h: u32) -> (r: LocalRect)
        ensures
            r == LocalRect::spec_recorded(offset, x, y, w, h),
    {
        LocalRect { x: offset.0 as u64 + x as u64, y: offset.1 as u64 + y as u64, w, h }
    }
}

} // verus!
