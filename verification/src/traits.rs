//! What every entity of the world can do: stand somewhere, be put
//! somewhere, be put somewhere at random.

use crate::point::{nearest_cell, Fixed, Point2d};
use crate::random::sample_between;
use rand::rngs::ThreadRng;
use std::ops::Range;
use vstd::prelude::*;

verus! {

/// A numeric type that positions are made of.
pub trait Coordinate: Sized {
    /// Where the value lies on the number line, in thousandths of a cell
    /// for real coordinates and in cells for whole ones.
    spec fn rank(&self) -> int;

    /// The column or row that `to_cell` gives.
    spec fn nearest(&self) -> u16;

    /// The column or row that the value rounds to.
    fn to_cell(&self) -> (cell: u16)
        ensures
            cell == self.nearest(),
    ;

    /// A value drawn from `low..high`.
    fn draw_between(rng: &mut ThreadRng, low: Self, high: Self) -> (value: Self)
        requires
            low.rank() < high.rank(),
        ensures
            low.rank() <= value.rank() < high.rank(),
    ;
}

impl Coordinate for u16 {
    open spec fn rank(&self) -> int {
        *self as int
    }

    open spec fn nearest(&self) -> u16 {
        *self
    }

    fn to_cell(&self) -> (cell: u16) {
        *self
    }

    fn draw_between(rng: &mut ThreadRng, low: u16, high: u16) -> (value: u16) {
        let drawn: i32 = sample_between(rng, low as i32, high as i32);
        drawn as u16
    }
}

impl Coordinate for Fixed {
    open spec fn rank(&self) -> int {
        self.milli as int
    }

    open spec fn nearest(&self) -> u16 {
        nearest_cell(self.milli as int) as u16
    }

    fn to_cell(&self) -> (cell: u16) {
        self.round()
    }

    fn draw_between(rng: &mut ThreadRng, low: Fixed, high: Fixed) -> (value: Fixed) {
        Fixed { milli: sample_between(rng, low.milli, high.milli) }
    }
}

/// Whether `p` lies in the box `x_range` by `y_range`, both half-open.
pub open spec fn in_ranges<T: Coordinate>(p: Point2d<T>, x_range: Range<T>, y_range: Range<T>) -> bool {
    &&& x_range.start.rank() <= p.x.rank() < x_range.end.rank()
    &&& y_range.start.rank() <= p.y.rank() < y_range.end.rank()
}

/// Something that stands at a point of the grid.
pub trait Position<T: Coordinate>: Sized {
    /// The point that `position` gives.
    spec fn location(&self) -> Point2d<T>;

    /// The entity as `set_position` leaves it when handed `position`.
    spec fn relocated(&self, position: Point2d<T>) -> Self;

    /// Where the entity stands.
    fn position(&self) -> (p: Point2d<T>)
        ensures
            p == self.location(),
    ;

    /// Puts the entity at `position`.
    fn set_position(&mut self, position: Point2d<T>)
        ensures
            *final(self) == old(self).relocated(position),
    ;

    /// Puts the entity at a point drawn from `x_range` by `y_range`.
    fn set_rand_position(&mut self, rng: &mut ThreadRng, x_range: Range<T>, y_range: Range<T>)
        requires
            x_range.start.rank() < x_range.end.rank(),
            y_range.start.rank() < y_range.end.rank(),
        ensures
            exists|p: Point2d<T>|
                in_ranges(p, x_range, y_range) && *final(self) == #[trigger] old(self).relocated(p),
    {
        let x = T::draw_between(rng, x_range.start, x_range.end);
        let y = T::draw_between(rng, y_range.start, y_range.end);
        let new_position = Point2d::new(x, y);
        self.set_position(new_position);
    }
}

} // verus!
