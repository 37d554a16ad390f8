use vstd::prelude::*;
use vstd::arithmetic::div_mod::{
    lemma_div_is_ordered, lemma_div_multiples_vanish, lemma_div_nonincreasing,
    lemma_div_pos_is_pos,
};
use vstd::arithmetic::mul::lemma_mul_inequality;

verus! {

/// Number of coordinate subunits per pixel. All positions, sizes and pivots
/// in this crate are fixed-point values counted in subunits, so a pivot of
/// one half of the rectangle is written `UNIT / 2` and a position of two
/// pixels is written `2 * UNIT`.
pub const UNIT: i64 = 10000;

/// Bound on every stored coordinate, in subunits. Keeping each component of
/// a `Transform` within this bound guarantees that the fixed-point products
/// and sums below stay inside `i64`.
pub const COORD_LIMIT: i64 = 0x8000_0000;

/// A two-dimensional vector in fixed-point subunits.
#[derive(Clone, Copy, PartialEq, Eq, Debug)]
pub struct Vec2 {
    pub x: i64,
    pub y: i64,
}

/// Both components of `v` lie within the coordinate bound.
pub open spec fn in_coord_range(v: Vec2) -> bool {
    &&& -COORD_LIMIT <= v.x <= COORD_LIMIT
    &&& -COORD_LIMIT <= v.y <= COORD_LIMIT
}

/// Division truncating towards zero, the behaviour of `/` on `i64`.
pub open spec fn trunc_div(a: int, d: int) -> int {
    if a >= 0 {
        a / d
    } else {
        -((-a) / d)
    }
}

/// A vector either in absolute subunits, or relative: a fraction of the
/// canvas extent, where `UNIT` stands for the whole width or height.
#[derive(Clone, Copy)]
pub enum TransformVector {
    Relative(Vec2),
    Absolute(Vec2),
}

/// A pivot-anchored rectangle: `pos` is where the pivot point of the
/// rectangle sits, `size` its extent, and `pivot` the anchor expressed as a
/// fraction of the size (`UNIT` meaning the whole extent on that axis).
#[derive(Clone, Copy)]
pub struct Transform {
    pub pos: Vec2,
    pub size: Vec2,
    pub pivot: Vec2,
}

/// The x component of `tv` once resolved against a canvas of width
/// `canvas_width`: a relative vector is scaled by the canvas extent, an
/// absolute one is used as it is.
pub open spec fn spec_resolve_x(tv: TransformVector, canvas_width: u32) -> int {
    match tv {
        TransformVector::Absolute(v) => v.x as int,
        TransformVector::Relative(v) => v.x * canvas_width,
    }
}

/// Companion of `spec_resolve_x` for the y component.
pub open spec fn spec_resolve_y(tv: TransformVector, canvas_height: u32) -> int {
    match tv {
        TransformVector::Absolute(v) => v.y as int,
        TransformVector::Relative(v) => v.y * canvas_height,
    }
}

impl TransformVector {
    /// Resolve this vector into absolute subunits against the given canvas
    /// dimensions. Resolution happens once, at transform construction; the
    /// result is not re-resolved if the canvas is later resized.
    pub fn into_absolute(self, canvas_width: u32, canvas_height: u32) -> (r: Vec2)
        requires
            -COORD_LIMIT <= spec_resolve_x(self, canvas_width) <= COORD_LIMIT,
            -COORD_LIMIT <= spec_resolve_y(self, canvas_height) <= COORD_LIMIT,
        ensures
            r.x == spec_resolve_x(self, canvas_width),
            r.y == spec_resolve_y(self, canvas_height),
            in_coord_range(r),
    {
        match self {
            TransformVector::Absolute(vec) => vec,
            TransformVector::Relative(vec) => Vec2 {
                x: vec.x * (canvas_width as i64),
                y: vec.y * (canvas_height as i64),
            },
        }
    }
}

/// `-0x4000_0000_0000_0000 <= a * b <= 0x4000_0000_0000_0000` whenever both
/// factors are within the coordinate bound.
pub(crate) proof fn lemma_coord_mul_bound(a: int, b: int)
    requires
        -0x8000_0000 <= a <= 0x8000_0000,
        -0x8000_0000 <= b <= 0x8000_0000,
    ensures
        -0x4000_0000_0000_0000 <= a * b <= 0x4000_0000_0000_0000,
{
    assert(-0x4000_0000_0000_0000 <= a * b <= 0x4000_0000_0000_0000) by (nonlinear_arith)
        requires
            -0x8000_0000 <= a <= 0x8000_0000,
            -0x8000_0000 <= b <= 0x8000_0000,
    ;
}

/// Truncating division never grows the magnitude of the dividend — the
/// quotient of a dividend with magnitude at most `m` has magnitude at most
/// `m / d` — and it keeps the dividend's sign.
pub(crate) proof fn lemma_trunc_div_bound(a: int, d: int, m: int)
    requires
        1 <= d,
        0 <= m,
        -m <= a <= m,
    ensures
        -(m / d) <= trunc_div(a, d) <= m / d,
        a >= 0 ==> 0 <= trunc_div(a, d) <= a,
        a <= 0 ==> a <= trunc_div(a, d) <= 0,
{
    if a >= 0 {
        lemma_div_pos_is_pos(a, d);
        lemma_div_nonincreasing(a, d);
        lemma_div_is_ordered(a, m, d);
    } else {
        lemma_div_pos_is_pos(-a, d);
        lemma_div_nonincreasing(-a, d);
        lemma_div_is_ordered(-a, m, d);
    }
}

impl Transform {
    /// Every stored component is within the coordinate bound; established by
    /// `new` and assumed by the geometric queries.
    pub open spec fn valid(&self) -> bool {
        &&& in_coord_range(self.pos)
        &&& in_coord_range(self.size)
        &&& in_coord_range(self.pivot)
    }

    /// The x coordinate of the rectangle's bottom-left corner:
    /// `pos - pivot * size`, in fixed point.
    pub open spec fn spec_bottom_left_x(&self) -> int {
        self.pos.x - trunc_div(self.pivot.x * self.size.x, UNIT as int)
    }

    /// Companion of `spec_bottom_left_x` for the y axis.
    pub open spec fn spec_bottom_left_y(&self) -> int {
        self.pos.y - trunc_div(self.pivot.y * self.size.y, UNIT as int)
    }

    /// The x coordinate of the rectangle's centre: `bottom_left + size / 2`.
    pub open spec fn spec_center_x(&self) -> int {
        self.spec_bottom_left_x() + trunc_div(self.size.x as int, 2)
    }

    /// Companion of `spec_center_x` for the y axis.
    pub open spec fn spec_center_y(&self) -> int {
        self.spec_bottom_left_y() + trunc_div(self.size.y as int, 2)
    }

    /// `point` lies in the closed rectangle spanned from the bottom-left
    /// corner by `size`; both boundaries of each axis are included.
    pub open spec fn spec_contains(&self, point: Vec2) -> bool {
        &&& self.spec_bottom_left_x() <= point.x <= self.spec_bottom_left_x() + self.size.x
        &&& self.spec_bottom_left_y() <= point.y <= self.spec_bottom_left_y() + self.size.y
    }

    /// Build a transform by resolving `pos` and `size` against the given
    /// canvas dimensions and storing the triple unchanged thereafter.
    pub fn new(
        pos: TransformVector,
        size: TransformVector,
        pivot: Vec2,
        canvas_width: u32,
        canvas_height: u32,
    ) -> (t: Transform)
        requires
            -COORD_LIMIT <= spec_resolve_x(pos, canvas_width) <= COORD_LIMIT,
            -COORD_LIMIT <= spec_resolve_y(pos, canvas_height) <= COORD_LIMIT,
            -COORD_LIMIT <= spec_resolve_x(size, canvas_width) <= COORD_LIMIT,
            -COORD_LIMIT <= spec_resolve_y(size, canvas_height) <= COORD_LIMIT,
            in_coord_range(pivot),
        ensures
            t.pos.x == spec_resolve_x(pos, canvas_width),
            t.pos.y == spec_resolve_y(pos, canvas_height),
            t.size.x == spec_resolve_x(size, canvas_width),
            t.size.y == spec_resolve_y(size, canvas_height),
            t.pivot == pivot,
            t.valid(),
    {
        Transform {
            pos: pos.into_absolute(canvas_width, canvas_height),
            size: size.into_absolute(canvas_width, canvas_height),
            pivot,
        }
    }

    /// The bottom-left corner of the rectangle, `pos - pivot * size`
    /// componentwise in fixed point.
    pub fn bottom_left(&self) -> (r: Vec2)
        requires
            self.valid(),
        ensures
            r.x == self.spec_bottom_left_x(),
            r.y == self.spec_bottom_left_y(),
    {
        proof {
            lemma_coord_mul_bound(self.pivot.x as int, self.size.x as int);
            lemma_coord_mul_bound(self.pivot.y as int, self.size.y as int);
            lemma_trunc_div_bound(
                self.pivot.x * self.size.x,
                UNIT as int,
                0x4000_0000_0000_0000,
            );
            lemma_trunc_div_bound(
                self.pivot.y * self.size.y,
                UNIT as int,
                0x4000_0000_0000_0000,
            );
        }
        let off_x: i64 = (self.pivot.x * self.size.x) / UNIT;
        let off_y: i64 = (self.pivot.y * self.size.y) / UNIT;
        Vec2 { x: self.pos.x - off_x, y: self.pos.y - off_y }
    }

    /// Whether `point` lies in the closed rectangle, boundaries included on
    /// both axes. A rectangle of zero size on an axis contains exactly the
    /// boundary line on that axis.
    pub fn contains(&self, point: Vec2) -> (r: bool)
        requires
            self.valid(),
        ensures
            r == self.spec_contains(point),
    {
        proof {
            lemma_coord_mul_bound(self.pivot.x as int, self.size.x as int);
            lemma_coord_mul_bound(self.pivot.y as int, self.size.y as int);
            lemma_trunc_div_bound(
                self.pivot.x * self.size.x,
                UNIT as int,
                0x4000_0000_0000_0000,
            );
            lemma_trunc_div_bound(
                self.pivot.y * self.size.y,
                UNIT as int,
                0x4000_0000_0000_0000,
            );
        }
        let bottom_left = self.bottom_left();
        bottom_left.x <= point.x && point.x <= bottom_left.x + self.size.x
            && bottom_left.y <= point.y && point.y <= bottom_left.y + self.size.y
    }

    /// The centre of the rectangle: `bottom_left + size / 2` componentwise.
    pub fn center(&self) -> (r: Vec2)
        requires
            self.valid(),
        ensures
            r.x == self.spec_center_x(),
            r.y == self.spec_center_y(),
    {
        proof {
            lemma_coord_mul_bound(self.pivot.x as int, self.size.x as int);
            lemma_coord_mul_bound(self.pivot.y as int, self.size.y as int);
            lemma_trunc_div_bound(
                self.pivot.x * self.size.x,
                UNIT as int,
                0x4000_0000_0000_0000,
            );
            lemma_trunc_div_bound(
                self.pivot.y * self.size.y,
                UNIT as int,
                0x4000_0000_0000_0000,
            );
            lemma_trunc_div_bound(self.size.x as int, 2, 0x8000_0000);
            lemma_trunc_div_bound(self.size.y as int, 2, 0x8000_0000);
        }
        let bottom_left = self.bottom_left();
        Vec2 { x: bottom_left.x + self.size.x / 2, y: bottom_left.y + self.size.y / 2 }
    }
}

/// With a pivot inside the unit square and a nonnegative size, the anchor
/// position itself lies inside the rectangle: on each axis,
/// `bottom_left <= pos <= bottom_left + size`.
pub proof fn lemma_pos_within_rect(t: Transform)
    requires
        t.valid(),
        0 <= t.pivot.x <= UNIT,
        0 <= t.pivot.y <= UNIT,
        0 <= t.size.x,
        0 <= t.size.y,
    ensures
        t.spec_bottom_left_x() <= t.pos.x <= t.spec_bottom_left_x() + t.size.x,
        t.spec_bottom_left_y() <= t.pos.y <= t.spec_bottom_left_y() + t.size.y,
        t.spec_contains(t.pos),
{
    lemma_pivot_offset_within_size(t.pivot.x as int, t.size.x as int);
    lemma_pivot_offset_within_size(t.pivot.y as int, t.size.y as int);
}

/// For a pivot component `p` in `[0, UNIT]` and a nonnegative size
/// component `s`, the fixed-point offset `p * s / UNIT` lies in `[0, s]`.
proof fn lemma_pivot_offset_within_size(p: int, s: int)
    requires
        0 <= p <= UNIT,
        0 <= s,
    ensures
        0 <= trunc_div(p * s, UNIT as int) <= s,
{
    let u = UNIT as int;
    lemma_mul_inequality(0, p, s);
    lemma_mul_inequality(p, u, s);
    lemma_div_pos_is_pos(p * s, u);
    lemma_div_is_ordered(p * s, u * s, u);
    lemma_div_multiples_vanish(s, u);
}

/// Containment is inclusive at both corners for nonnegative sizes — the
/// bottom-left and top-right corners are contained — and no point strictly
/// beyond either corner on either axis is contained.
pub proof fn lemma_contains_is_inclusive(t: Transform, low: Vec2, high: Vec2)
    requires
        t.valid(),
        0 <= t.size.x,
        0 <= t.size.y,
        low.x == t.spec_bottom_left_x(),
        low.y == t.spec_bottom_left_y(),
        high.x == t.spec_bottom_left_x() + t.size.x,
        high.y == t.spec_bottom_left_y() + t.size.y,
    ensures
        t.spec_contains(low),
        t.spec_contains(high),
        forall|q: Vec2|
            (q.x < low.x || high.x < q.x || q.y < low.y || high.y < q.y)
                ==> !t.spec_contains(q),
{
}

} // verus!
