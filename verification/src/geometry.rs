//! Points of the field, grid cells and velocities.

use crate::fixed::{cell_index, whole, Fixed};
use vstd::prelude::*;

verus! {

/// Model of a [`Position2D`]: the raw values of its coordinates.
pub struct Point {
    pub x: int,
    pub y: int,
}

/// Model of a [`Velocity2D`]: the raw values of its components.
pub struct Vector {
    pub vx: int,
    pub vy: int,
}

impl Point {
    /// The grid cell that the point lies in: each coordinate rounded to the
    /// nearest whole number, a negative one to zero.
    pub open spec fn cell(self) -> DiscretePosition2D {
        DiscretePosition2D { x: cell_index(self.x) as usize, y: cell_index(self.y) as usize }
    }
}

/// A point of the field, in field units from the bottom left corner.
#[derive(Debug, Clone, Copy)]
pub struct Position2D {
    pub x: Fixed,
    pub y: Fixed,
}

impl View for Position2D {
    type V = Point;

    open spec fn view(&self) -> Point {
        Point { x: self.x@, y: self.y@ }
    }
}

impl Position2D {
    pub fn new(x: Fixed, y: Fixed) -> (p: Position2D)
        ensures
            p.x == x,
            p.y == y,
    {
        Position2D { x, y }
    }

    /// The grid cell that the point lies in.
    pub fn to_discrete(&self) -> (c: DiscretePosition2D)
        ensures
            c == self@.cell(),
    {
        let x = self.x.to_cell();
        let y = self.y.to_cell();

        DiscretePosition2D::new(x, y)
    }
}

/// A cell of the grid that the field is drawn on.
#[derive(Debug, Clone, Copy, PartialEq, Eq, Structural)]
pub struct DiscretePosition2D {
    pub x: usize,
    pub y: usize,
}

impl DiscretePosition2D {
    pub fn new(x: usize, y: usize) -> (c: DiscretePosition2D)
        ensures
            c.x == x,
            c.y == y,
    {
        DiscretePosition2D { x, y }
    }

    /// The point at the centre of the cell; a coordinate beyond the range of
    /// [`Fixed`] stops at its upper bound.
    pub open spec fn centre(self) -> Point {
        Point { x: whole(self.x as nat), y: whole(self.y as nat) }
    }

    /// The point at the centre of the cell.
    pub fn to_continuous(&self) -> (p: Position2D)
        ensures
            p@ == self.centre(),
    {
        Position2D::new(Fixed::from_whole(self.x), Fixed::from_whole(self.y))
    }
}

/// A velocity, in field units per second.
#[derive(Debug, Clone, Copy)]
pub struct Velocity2D {
    pub vx: Fixed,
    pub vy: Fixed,
}

impl View for Velocity2D {
    type V = Vector;

    open spec fn view(&self) -> Vector {
        Vector { vx: self.vx@, vy: self.vy@ }
    }
}

impl Velocity2D {
    pub fn new(vx: Fixed, vy: Fixed) -> (v: Velocity2D)
        ensures
            v.vx == vx,
            v.vy == vy,
    {
        Velocity2D { vx, vy }
    }
}

} // verus!
