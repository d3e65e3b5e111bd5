//! Points and displacements of the plane, in fixed-point coordinates.

use vstd::math::abs;
use vstd::prelude::*;

verus! {

/// One whole unit of length or speed: coordinates are counted in thousandths.
pub const UNIT: i64 = 1000;

/// The largest size that a component of the displacement between two points
/// can have.
pub const SPAN: i64 = 0xFFFF_FFFF;

/// The largest squared length that the displacement between two points can
/// have: twice the square of [`SPAN`].
pub const SPAN_NORM_SQ: u128 = 0x1_FFFF_FFFC_0000_0002;

/// A position of the plane.
#[derive(Clone, Copy, Debug, PartialEq, Eq, Structural)]
pub struct Point {
    pub x: i32,
    pub y: i32,
}

/// A displacement of the plane: what leads from one point to another.
#[derive(Clone, Copy, Debug, PartialEq, Eq, Structural)]
pub struct Vector {
    pub x: i64,
    pub y: i64,
}

/// The displacement that leads from `from` to `to`.
pub open spec fn displacement(from: Point, to: Point) -> Vector {
    Vector { x: (to.x - from.x) as i64, y: (to.y - from.y) as i64 }
}

/// The square of the Euclidean distance between `a` and `b`.
pub open spec fn distance_sq(a: Point, b: Point) -> int {
    (b.x - a.x) * (b.x - a.x) + (b.y - a.y) * (b.y - a.y)
}

impl Point {
    pub fn new(x: i32, y: i32) -> (p: Point)
        ensures
            p == (Point { x, y }),
    {
        Point { x, y }
    }

    /// The displacement that leads from this point to `to`.
    pub fn displacement_to(&self, to: &Point) -> (d: Vector)
        ensures
            d == displacement(*self, *to),
            d.x == to.x - self.x,
            d.y == to.y - self.y,
            d.is_span(),
    {
        Vector { x: to.x as i64 - self.x as i64, y: to.y as i64 - self.y as i64 }
    }

    /// Whether `other` lies within `range` of this point, by Euclidean
    /// distance.
    pub fn is_within(&self, other: &Point, range: u32) -> (r: bool)
        ensures
            r == (distance_sq(*self, *other) <= range * range),
    {
        let dx: i128 = other.x as i128 - self.x as i128;
        let dy: i128 = other.y as i128 - self.y as i128;
        let far: i128 = range as i128;
        assert(0 <= dx * dx <= 0xFFFF_FFFF * 0xFFFF_FFFF) by (nonlinear_arith)
            requires
                -0xFFFF_FFFF <= dx <= 0xFFFF_FFFF,
        ;
        assert(0 <= dy * dy <= 0xFFFF_FFFF * 0xFFFF_FFFF) by (nonlinear_arith)
            requires
                -0xFFFF_FFFF <= dy <= 0xFFFF_FFFF,
        ;
        assert(0 <= far * far <= 0xFFFF_FFFF * 0xFFFF_FFFF) by (nonlinear_arith)
            requires
                0 <= far <= 0xFFFF_FFFF,
        ;
        dx * dx + dy * dy <= far * far
    }
}

/// Whether `part` is, counted in thousandths and cut off toward zero, the
/// share that the component `along` has in the length of a displacement whose
/// squared length is `norm_sq`: the size of `part` is the largest whole number
/// that does not exceed `UNIT * |along| / sqrt(norm_sq)`, and `part` has the
/// sign of `along`.
pub open spec fn is_unit_part(part: int, along: int, norm_sq: int) -> bool {
    &&& along >= 0 ==> part >= 0
    &&& along <= 0 ==> part <= 0
    &&& part * part * norm_sq <= UNIT * UNIT * (along * along)
    &&& UNIT * UNIT * (along * along) < (abs(part) + 1) * (abs(part) + 1) * norm_sq
}

/// Whether `unit` is `of` scaled to length one, each component counted in
/// thousandths and cut off toward zero.
pub open spec fn is_unit_of(unit: Vector, of: Vector) -> bool {
    &&& is_unit_part(unit.x as int, of.x as int, of.norm_sq())
    &&& is_unit_part(unit.y as int, of.y as int, of.norm_sq())
}

/// Only one number is the share of a given component in a given length.
pub proof fn lemma_unit_part_unique(a: int, b: int, along: int, norm_sq: int)
    requires
        norm_sq > 0,
        is_unit_part(a, along, norm_sq),
        is_unit_part(b, along, norm_sq),
    ensures
        a == b,
{
    let goal = UNIT * UNIT * (along * along);
    let size_a = abs(a);
    let size_b = abs(b);
    assert(size_a * size_a == a * a) by (nonlinear_arith)
        requires
            size_a == a || size_a == -a,
    ;
    assert(size_b * size_b == b * b) by (nonlinear_arith)
        requires
            size_b == b || size_b == -b,
    ;
    if size_a < size_b {
        assert((size_a + 1) * (size_a + 1) * norm_sq <= size_b * size_b * norm_sq)
            by (nonlinear_arith)
            requires
                0 <= size_a + 1 <= size_b,
                norm_sq > 0,
        ;
    }
    if size_b < size_a {
        assert((size_b + 1) * (size_b + 1) * norm_sq <= size_a * size_a * norm_sq)
            by (nonlinear_arith)
            requires
                0 <= size_b + 1 <= size_a,
                norm_sq > 0,
        ;
    }
    assert(size_a == size_b);
}

/// A displacement that leads somewhere has only one unit displacement.
pub proof fn lemma_unit_unique(a: Vector, b: Vector, of: Vector)
    requires
        !of.is_zero(),
        is_unit_of(a, of),
        is_unit_of(b, of),
    ensures
        a == b,
{
    lemma_norm_sq_positive(of);
    lemma_unit_part_unique(a.x as int, b.x as int, of.x as int, of.norm_sq());
    lemma_unit_part_unique(a.y as int, b.y as int, of.y as int, of.norm_sq());
}

/// Only the displacement that leads nowhere has length zero.
pub proof fn lemma_norm_sq_positive(v: Vector)
    ensures
        v.norm_sq() >= 0,
        v.norm_sq() == 0 <==> v.is_zero(),
{
    let x = v.x as int;
    let y = v.y as int;
    assert(x * x >= 0 && (x != 0 ==> x * x > 0)) by (nonlinear_arith);
    assert(y * y >= 0 && (y != 0 ==> y * y > 0)) by (nonlinear_arith);
}

/// A unit displacement is no longer than one whole unit, and falls short of
/// it by less than one thousandth in each component.
pub proof fn lemma_unit_length(unit: Vector, of: Vector)
    requires
        !of.is_zero(),
        is_unit_of(unit, of),
    ensures
        unit.norm_sq() <= UNIT * UNIT,
        (abs(unit.x as int) + 1) * (abs(unit.x as int) + 1) + (abs(unit.y as int) + 1) * (abs(
            unit.y as int,
        ) + 1) > UNIT * UNIT,
        !unit.is_zero(),
{
    lemma_norm_sq_positive(of);
    let n = of.norm_sq();
    let ux = unit.x as int;
    let uy = unit.y as int;
    let ox = of.x as int;
    let oy = of.y as int;
    let hx = (abs(ux) + 1) * (abs(ux) + 1);
    let hy = (abs(uy) + 1) * (abs(uy) + 1);
    assert(ux * ux + uy * uy <= UNIT * UNIT) by (nonlinear_arith)
        requires
            n > 0,
            n == ox * ox + oy * oy,
            ux * ux * n <= UNIT * UNIT * (ox * ox),
            uy * uy * n <= UNIT * UNIT * (oy * oy),
    ;
    assert(hx + hy > UNIT * UNIT) by (nonlinear_arith)
        requires
            n > 0,
            n == ox * ox + oy * oy,
            UNIT * UNIT * (ox * ox) < hx * n,
            UNIT * UNIT * (oy * oy) < hy * n,
    ;
    if unit.is_zero() {
        let one_x = abs(ux) + 1;
        let one_y = abs(uy) + 1;
        assert(one_x * one_x == 1 && one_y * one_y == 1) by (nonlinear_arith)
            requires
                one_x == 1,
                one_y == 1,
        ;
    }
}

/// The unit displacement of one that runs along the positive x-axis is the
/// x-axis unit itself.
pub proof fn lemma_unit_along_x_axis(unit: Vector, of: Vector)
    requires
        of.x > 0,
        of.y == 0,
        is_unit_of(unit, of),
    ensures
        unit == Vector::x_axis(),
{
    let n = of.norm_sq();
    let ox = of.x as int;
    assert(n == ox * ox);
    assert(n > 0) by (nonlinear_arith)
        requires
            n == ox * ox,
            ox > 0,
    ;
    assert(is_unit_part(UNIT as int, ox, n)) by (nonlinear_arith)
        requires
            n == ox * ox,
            ox > 0,
            n > 0,
            UNIT == 1000,
    {
        assert(abs(UNIT as int) == 1000);
    }
    assert(is_unit_part(0, 0, n)) by (nonlinear_arith)
        requires
            n > 0,
    {
        assert(abs(0) == 0);
    }
    lemma_unit_part_unique(unit.x as int, UNIT as int, ox, n);
    lemma_unit_part_unique(unit.y as int, 0, 0, n);
}

/// One component of a displacement scaled to length one.
fn unit_part(along: i64, norm_sq: u128) -> (part: i64)
    requires
        -SPAN <= along <= SPAN,
        along * along <= norm_sq <= SPAN_NORM_SQ,
        norm_sq > 0,
    ensures
        is_unit_part(part as int, along as int, norm_sq as int),
        -UNIT <= part <= UNIT,
{
    let size: u128 = if along < 0 {
        (-along) as u128
    } else {
        along as u128
    };
    assert(size * size == along * along) by (nonlinear_arith)
        requires
            size == along || size == -along,
    ;
    assert(size * size <= 0xFFFF_FFFF * 0xFFFF_FFFF) by (nonlinear_arith)
        requires
            0 <= size <= 0xFFFF_FFFF,
    ;
    let goal: u128 = 1_000_000 * (size * size);
    let mut low: u128 = 0;
    let mut high: u128 = 1001;
    assert(low * low * norm_sq == 0) by (nonlinear_arith)
        requires
            low == 0,
    ;
    assert(high * high * norm_sq == 1002001 * norm_sq) by (nonlinear_arith)
        requires
            high == 1001,
    ;
    while high - low > 1
        invariant
            low < high <= 1001,
            low * low * norm_sq <= goal < high * high * norm_sq,
            0 < norm_sq <= SPAN_NORM_SQ,
            goal == UNIT * UNIT * (along * along),
        decreases high - low,
    {
        let mid: u128 = low + (high - low) / 2;
        assert(mid * mid <= 1001 * 1001) by (nonlinear_arith)
            requires
                0 <= mid <= 1001,
        ;
        assert(mid * mid * norm_sq <= (1001 * 1001) * SPAN_NORM_SQ) by (nonlinear_arith)
            requires
                0 <= mid * mid <= 1001 * 1001,
                0 <= norm_sq <= SPAN_NORM_SQ,
        ;
        if mid * mid * norm_sq <= goal {
            low = mid;
        } else {
            high = mid;
        }
    }
    assert(high == low + 1);
    assert(along == 0 ==> low == 0) by (nonlinear_arith)
        requires
            low * low * norm_sq <= goal,
            goal == UNIT * UNIT * (along * along),
            norm_sq > 0,
            low >= 0,
    ;
    if along < 0 {
        let part: i64 = -(low as i64);
        assert(part * part == low * low) by (nonlinear_arith)
            requires
                part == -low,
        ;
        assert(abs(part as int) + 1 == high);
        part
    } else {
        assert(abs(low as int) + 1 == high);
        low as i64
    }
}

impl Vector {
    /// The unit displacement along the positive x-axis.
    pub open spec fn x_axis() -> Vector {
        Vector { x: UNIT, y: 0 }
    }

    /// Whether this is the displacement that leads nowhere.
    pub open spec fn is_zero(self) -> bool {
        self.x == 0 && self.y == 0
    }

    /// Whether this can be the displacement between two points.
    pub open spec fn is_span(self) -> bool {
        -SPAN <= self.x <= SPAN && -SPAN <= self.y <= SPAN
    }

    /// The square of the Euclidean length.
    pub open spec fn norm_sq(self) -> int {
        self.x * self.x + self.y * self.y
    }

    /// Whether this displacement leads nowhere.
    pub fn leads_nowhere(&self) -> (r: bool)
        ensures
            r == self.is_zero(),
    {
        self.x == 0 && self.y == 0
    }

    /// This displacement scaled to length one.
    pub fn unit(&self) -> (u: Vector)
        requires
            self.is_span(),
            !self.is_zero(),
        ensures
            is_unit_of(u, *self),
            u.is_span(),
    {
        let x: i128 = self.x as i128;
        let y: i128 = self.y as i128;
        assert(0 <= x * x <= 0xFFFF_FFFF * 0xFFFF_FFFF) by (nonlinear_arith)
            requires
                -0xFFFF_FFFF <= x <= 0xFFFF_FFFF,
        ;
        assert(0 <= y * y <= 0xFFFF_FFFF * 0xFFFF_FFFF) by (nonlinear_arith)
            requires
                -0xFFFF_FFFF <= y <= 0xFFFF_FFFF,
        ;
        assert(x * x + y * y > 0) by (nonlinear_arith)
            requires
                x != 0 || y != 0,
        ;
        let norm_sq: u128 = (x * x + y * y) as u128;
        Vector { x: unit_part(self.x, norm_sq), y: unit_part(self.y, norm_sq) }
    }
}

} // verus!
