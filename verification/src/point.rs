//! Points on the grid, in whole cells and in thousandths of a cell.

use vstd::prelude::*;

verus! {

/// Number of sub-cell steps that make one cell.
pub const SCALE: i32 = 1000;

/// The largest column or row a cell can have.
pub const MAX_CELL: u16 = 0xffff;

/// A real coordinate, held as a whole number of thousandths of a cell.
///
/// Sums and differences saturate at the ends of the `i32` range, which lie
/// some two million cells from the origin.
#[derive(Clone, Copy, Debug, PartialEq, Eq, Structural)]
pub struct Fixed {
    pub milli: i32,
}

/// `v` brought into the range of `i32`.
pub open spec fn clamp_i32(v: int) -> int {
    if v < i32::MIN {
        i32::MIN as int
    } else if v > i32::MAX {
        i32::MAX as int
    } else {
        v
    }
}

/// The quotient `a / b` rounded towards zero, for a positive `b`.
pub open spec fn div_toward_zero(a: int, b: int) -> int
    recommends
        b > 0,
{
    if a >= 0 {
        a / b
    } else {
        -((-a) / b)
    }
}

/// The cell nearest to a coordinate of `milli` thousandths: halves round
/// away from zero, and what falls outside the grid lands on its edge.
pub open spec fn nearest_cell(milli: int) -> int {
    if milli < 500 {
        0
    } else if (milli + 500) / 1000 > 0xffff {
        0xffff
    } else {
        (milli + 500) / 1000
    }
}

/// The thousandths of `a` thousandths times `b` thousandths.
pub open spec fn scaled_product(a: int, b: int) -> int {
    clamp_i32(div_toward_zero(a * b, 1000))
}

/// `v` as an `i32`, saturating.
pub fn narrow(v: i64) -> (r: i32)
    ensures
        r == clamp_i32(v as int),
{
    if v < -2147483648 {
        i32::MIN
    } else if v > 2147483647 {
        i32::MAX
    } else {
        v as i32
    }
}

impl Fixed {
    /// The coordinate of `milli` thousandths of a cell.
    pub fn from_milli(milli: i32) -> (r: Fixed)
        ensures
            r.milli == milli,
    {
        Fixed { milli }
    }

    /// The coordinate at the centre of column or row `cell`.
    pub fn from_cell(cell: u16) -> (r: Fixed)
        ensures
            r.milli == cell * 1000,
    {
        let wide: i32 = cell as i32;
        Fixed { milli: wide * SCALE }
    }

    /// The sum, saturating.
    pub fn plus(self, other: Fixed) -> (r: Fixed)
        ensures
            r.milli == clamp_i32(self.milli + other.milli),
    {
        let sum: i64 = self.milli as i64 + other.milli as i64;
        Fixed { milli: narrow(sum) }
    }

    /// The difference, saturating.
    pub fn minus(self, other: Fixed) -> (r: Fixed)
        ensures
            r.milli == clamp_i32(self.milli - other.milli),
    {
        let diff: i64 = self.milli as i64 - other.milli as i64;
        Fixed { milli: narrow(diff) }
    }

    /// The product, rounded towards zero and saturating.
    pub fn scaled(self, factor: Fixed) -> (r: Fixed)
        ensures
            r.milli == scaled_product(self.milli as int, factor.milli as int),
    {
        let a: i64 = self.milli as i64;
        let b: i64 = factor.milli as i64;
        assert(-0x4000_0000_0000_0000 <= a * b <= 0x4000_0000_0000_0000) by (nonlinear_arith)
            requires
                -0x8000_0000 <= a <= 0x8000_0000,
                -0x8000_0000 <= b <= 0x8000_0000,
        ;
        let product: i64 = a * b;
        Fixed { milli: narrow(product / 1000) }
    }

    /// The cell this coordinate rounds to.
    pub fn round(self) -> (cell: u16)
        ensures
            cell == nearest_cell(self.milli as int),
    {
        if self.milli < 500 {
            0
        } else {
            let shifted: i64 = self.milli as i64 + 500;
            let q: i64 = shifted / 1000;
            if q > 0xffff {
                MAX_CELL
            } else {
                q as u16
            }
        }
    }
}

/// Rounding goes to the nearest cell: inside the grid, a coordinate lies
/// less than half a cell above and at most half a cell below the centre of
/// the cell it rounds to.
pub proof fn lemma_round_is_nearest(milli: int)
    requires
        0 <= milli < 65_535_500,
    ensures
        1000 * nearest_cell(milli) - 500 <= milli < 1000 * nearest_cell(milli) + 500,
{
}

/// Whether `r` is the whole part of the square root of `n`.
pub open spec fn is_int_sqrt(r: int, n: int) -> bool {
    0 <= r && r * r <= n < (r + 1) * (r + 1)
}

/// The whole part of the square root of `n`.
pub open spec fn int_sqrt(n: int) -> int {
    choose|r: int| is_int_sqrt(r, n)
}

/// Only one whole number has its square at or below `n` and the next square
/// above `n`.
pub proof fn lemma_int_sqrt_is(n: int, r: int)
    requires
        is_int_sqrt(r, n),
    ensures
        int_sqrt(n) == r,
{
    let s = int_sqrt(n);
    if s < r {
        assert((s + 1) * (s + 1) <= r * r) by (nonlinear_arith)
            requires
                0 <= s,
                s + 1 <= r,
        ;
    }
    if r < s {
        assert((r + 1) * (r + 1) <= s * s) by (nonlinear_arith)
            requires
                0 <= r,
                r + 1 <= s,
        ;
    }
}

/// Every natural number has a whole square root.
pub proof fn lemma_int_sqrt_exists(n: int)
    requires
        0 <= n,
    ensures
        is_int_sqrt(int_sqrt(n), n),
    decreases n,
{
    if n == 0 {
        assert(is_int_sqrt(0, 0));
    } else {
        lemma_int_sqrt_exists(n - 1);
        let r = int_sqrt(n - 1);
        if n < (r + 1) * (r + 1) {
            assert(is_int_sqrt(r, n));
        } else {
            assert((r + 1) * (r + 1) < (r + 2) * (r + 2)) by (nonlinear_arith)
                requires
                    0 <= r,
            ;
            assert(is_int_sqrt(r + 1, n));
        }
    }
}

/// The whole part of the square root of `n`, by bisection.
pub fn isqrt(n: u128) -> (r: u64)
    ensures
        is_int_sqrt(r as int, n as int),
        r == int_sqrt(n as int),
{
    let mut low: u128 = 0;
    let mut high: u128 = 0x1_0000_0000_0000_0000;
    while high - low > 1
        invariant
            low < high <= 0x1_0000_0000_0000_0000,
            low * low <= n < high * high,
        decreases high - low,
    {
        let mid: u128 = low + (high - low) / 2;
        assert(mid * mid <= u128::MAX) by (nonlinear_arith)
            requires
                0 <= mid < 0x1_0000_0000_0000_0000,
        ;
        if mid * mid <= n {
            low = mid;
        } else {
            high = mid;
        }
    }
    proof {
        lemma_int_sqrt_is(n as int, low as int);
    }
    low as u64
}

/// One coordinate, in thousandths, of the vector of length one that points
/// along `(d, e)`; zero where `d` and `e` are both zero.
pub open spec fn unit_part(d: int, e: int) -> int {
    if d == 0 && e == 0 {
        0
    } else {
        div_toward_zero(1_000_000 * d, int_sqrt(1_000_000 * (d * d + e * e)))
    }
}

/// A coordinate of a unit vector is at most one in size.
pub proof fn lemma_unit_part_bounds(d: int, e: int)
    ensures
        -1000 <= unit_part(d, e) <= 1000,
        d >= 0 ==> unit_part(d, e) >= 0,
        d <= 0 ==> unit_part(d, e) <= 0,
        !(d == 0 && e == 0) ==> int_sqrt(1_000_000 * (d * d + e * e)) >= 1000,
{
    if !(d == 0 && e == 0) {
        let n = 1_000_000 * (d * d + e * e);
        let len = int_sqrt(n);
        let m = if d >= 0 { d } else { -d };
        assert(n >= 1_000_000 && n >= (1000 * m) * (1000 * m)) by (nonlinear_arith)
            requires
                n == 1_000_000 * (d * d + e * e),
                !(d == 0 && e == 0),
                m == d || m == -d,
        ;
        lemma_int_sqrt_exists(n);
        assert(len >= 1000 * m && len >= 1000) by (nonlinear_arith)
            requires
                0 <= len,
                0 <= m,
                n < (len + 1) * (len + 1),
                n >= (1000 * m) * (1000 * m),
                n >= 1_000_000,
        ;
        assert(0 <= (1_000_000 * m) / len <= 1000) by (nonlinear_arith)
            requires
                len >= 1000 * m,
                len >= 1000,
                m >= 0,
        ;
    }
}

/// A point with two coordinates of one numeric type.
#[derive(Debug, PartialEq, Eq, Structural)]
pub struct Point2d<T> {
    pub x: T,
    pub y: T,
}

impl<T: Copy> Clone for Point2d<T> {
    fn clone(&self) -> (p: Point2d<T>)
        ensures
            p == *self,
    {
        *self
    }
}

impl<T: Copy> Copy for Point2d<T> {

}

impl<T> Point2d<T> {
    /// The point `(x, y)`.
    pub fn new(x: T, y: T) -> (p: Point2d<T>)
        ensures
            p.x == x,
            p.y == y,
    {
        Point2d { x, y }
    }
}

impl Point2d<u16> {
    /// The real point at the centre of this cell.
    pub fn centre(&self) -> (p: Point2d<Fixed>)
        ensures
            p.x.milli == self.x * 1000,
            p.y.milli == self.y * 1000,
            p.cell() == *self,
    {
        Point2d { x: Fixed::from_cell(self.x), y: Fixed::from_cell(self.y) }
    }
}

impl Point2d<Fixed> {
    /// The cell that a real point lies in: each coordinate rounded to the
    /// nearest whole number.
    pub open spec fn cell(self) -> Point2d<u16> {
        Point2d {
            x: nearest_cell(self.x.milli as int) as u16,
            y: nearest_cell(self.y.milli as int) as u16,
        }
    }

    /// The cell that a real point lies in.
    pub fn round(&self) -> (cell: Point2d<u16>)
        ensures
            cell == self.cell(),
    {
        Point2d { x: self.x.round(), y: self.y.round() }
    }

    /// The vector of length one that points from here to `target`, each
    /// coordinate rounded towards zero; the zero vector where the two
    /// points are the same.
    pub fn unit_towards(&self, target: &Point2d<Fixed>) -> (unit: Point2d<Fixed>)
        ensures
            unit.x.milli == unit_part(
                target.x.milli - self.x.milli,
                target.y.milli - self.y.milli,
            ),
            unit.y.milli == unit_part(
                target.y.milli - self.y.milli,
                target.x.milli - self.x.milli,
            ),
            -1000 <= unit.x.milli <= 1000,
            -1000 <= unit.y.milli <= 1000,
    {
        let dx: i64 = target.x.milli as i64 - self.x.milli as i64;
        let dy: i64 = target.y.milli as i64 - self.y.milli as i64;
        proof {
            lemma_unit_part_bounds(dx as int, dy as int);
            lemma_unit_part_bounds(dy as int, dx as int);
        }
        if dx == 0 && dy == 0 {
            return Point2d { x: Fixed { milli: 0 }, y: Fixed { milli: 0 } };
        }
        let ax: u128 = (if dx < 0 { -dx } else { dx }) as u128;
        let ay: u128 = (if dy < 0 { -dy } else { dy }) as u128;
        assert(ax * ax <= 0x1_0000_0000_0000_0000 && ay * ay <= 0x1_0000_0000_0000_0000
            && ax * ax == dx * dx && ay * ay == dy * dy) by (nonlinear_arith)
            requires
                ax <= 0x1_0000_0000,
                ay <= 0x1_0000_0000,
                ax == dx || ax == -dx,
                ay == dy || ay == -dy,
        ;
        let squares: u128 = ax * ax + ay * ay;
        let len: u64 = isqrt(1_000_000 * squares);
        assert(len < 0x1000_0000_0000) by (nonlinear_arith)
            requires
                len * len <= 1_000_000 * squares,
                squares <= 0x2_0000_0000_0000_0000,
        ;
        let span: i64 = len as i64;
        let ux: i64 = (1_000_000 * dx) / span;
        let uy: i64 = (1_000_000 * dy) / span;
        Point2d { x: Fixed { milli: ux as i32 }, y: Fixed { milli: uy as i32 } }
    }
}

} // verus!
