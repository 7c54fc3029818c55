//! The tile grid: conversion between continuous pixel coordinates and
//! discrete tile addresses, and one-tile steps in a compass direction.

use vstd::prelude::*;

verus! {

/// Width of one grid tile, in pixels.
pub const TILE_SIZE: isize = 32;

/// A compass direction of travel; there are no diagonals.
#[derive(Clone, Copy, Debug, PartialEq, Eq, Structural)]
pub enum Direction {
    Up,
    Down,
    Left,
    Right,
}

/// The exact reverse of a direction.
pub open spec fn opposite(d: Direction) -> Direction {
    match d {
        Direction::Up => Direction::Down,
        Direction::Down => Direction::Up,
        Direction::Left => Direction::Right,
        Direction::Right => Direction::Left,
    }
}

/// Tile displacement along the x axis of one step in direction `d`.
pub open spec fn dx(d: Direction) -> int {
    match d {
        Direction::Left => -1,
        Direction::Right => 1,
        _ => 0,
    }
}

/// Tile displacement along the y axis of one step in direction `d`
/// (the y axis grows downward, as pixel coordinates do).
pub open spec fn dy(d: Direction) -> int {
    match d {
        Direction::Up => -1,
        Direction::Down => 1,
        _ => 0,
    }
}

/// A grid cell's address: a tile index `(x, y)` and its pixel-space
/// projection `(x_actual, y_actual)`, the tile's top-left corner.
#[derive(Clone, Copy, Debug, PartialEq, Eq, Structural)]
pub struct Point {
    pub x: isize,
    pub y: isize,
    pub x_actual: isize,
    pub y_actual: isize,
}

impl Point {
    /// The pixel fields are exactly the projection of the tile fields.
    pub open spec fn wf(self) -> bool {
        &&& self.x_actual == TILE_SIZE * self.x
        &&& self.y_actual == TILE_SIZE * self.y
    }

    pub fn new(x: isize, y: isize, x_actual: isize, y_actual: isize) -> (p: Point)
        ensures
            p.x == x,
            p.y == y,
            p.x_actual == x_actual,
            p.y_actual == y_actual,
    {
        Point { x, y, x_actual, y_actual }
    }
}

/// The point one tile from `p` in direction `d`: tile and pixel fields
/// shifted together.
pub open spec fn advanced(p: Point, d: Direction) -> Point {
    Point {
        x: (p.x + dx(d)) as isize,
        y: (p.y + dy(d)) as isize,
        x_actual: (p.x_actual + TILE_SIZE * dx(d)) as isize,
        y_actual: (p.y_actual + TILE_SIZE * dy(d)) as isize,
    }
}

/// Both addressings of `p` can shift one tile in direction `d` without
/// leaving the machine integer range.
pub open spec fn can_advance(p: Point, d: Direction) -> bool {
    &&& isize::MIN <= p.x + dx(d) <= isize::MAX
    &&& isize::MIN <= p.y + dy(d) <= isize::MAX
    &&& isize::MIN <= p.x_actual + TILE_SIZE * dx(d) <= isize::MAX
    &&& isize::MIN <= p.y_actual + TILE_SIZE * dy(d) <= isize::MAX
}

/// One step in a direction and one step back restores the starting point,
/// pixel and tile fields alike.
pub proof fn lemma_advance_round_trip(p: Point, d: Direction)
    requires
        can_advance(p, d),
    ensures
        advanced(advanced(p, d), opposite(d)) == p,
{
}

/// The playing field's extent in tiles, computed once from the viewport's
/// pixel dimensions. A pure coordinate-conversion service: `advance` imposes
/// no wall and no wraparound, so off-grid points stay representable.
#[derive(Clone, Copy, Debug)]
pub struct Grid {
    rows: isize,
    columns: isize,
}

impl Grid {
    pub closed spec fn spec_rows(self) -> int {
        self.rows as int
    }

    pub closed spec fn spec_columns(self) -> int {
        self.columns as int
    }

    /// Computes the tile extent of a viewport by integer division; a
    /// negative viewport is the caller's responsibility to rule out.
    pub fn new(window_width: isize, window_height: isize) -> (g: Grid)
        requires
            0 <= window_width,
            0 <= window_height,
        ensures
            g.spec_rows() == window_height as int / TILE_SIZE as int,
            g.spec_columns() == window_width as int / TILE_SIZE as int,
    {
        let rows = window_height / TILE_SIZE;
        let columns = window_width / TILE_SIZE;
        Grid { rows, columns }
    }

    /// Snaps a pixel position to its containing tile: truncates each
    /// coordinate to a tile index, then recomputes the pixel fields as the
    /// tile's top-left corner (a snap to the grid, not an identity).
    pub fn get_point(&self, x_position: isize, y_position: isize) -> (p: Point)
        requires
            0 <= x_position,
            0 <= y_position,
        ensures
            p.x == x_position as int / TILE_SIZE as int,
            p.y == y_position as int / TILE_SIZE as int,
            p.wf(),
    {
        let y = y_position / TILE_SIZE;
        let x = x_position / TILE_SIZE;

        let x_actual = x * TILE_SIZE;
        let y_actual = y * TILE_SIZE;

        Point::new(x, y, x_actual, y_actual)
    }

    /// Advances a point by exactly one tile in the given direction. No
    /// clamping: the result may lie outside the grid's extent.
    pub fn advance(&self, point: Point, direction: Direction) -> (p: Point)
        requires
            can_advance(point, direction),
        ensures
            p == advanced(point, direction),
            point.wf() ==> p.wf(),
    {
        match direction {
            Direction::Up => Point {
                x: point.x,
                y: point.y - 1,
                x_actual: point.x_actual,
                y_actual: point.y_actual - TILE_SIZE,
            },
            Direction::Down => Point {
                x: point.x,
                y: point.y + 1,
                x_actual: point.x_actual,
                y_actual: point.y_actual + TILE_SIZE,
            },
            Direction::Left => Point {
                x: point.x - 1,
                y: point.y,
                x_actual: point.x_actual - TILE_SIZE,
                y_actual: point.y_actual,
            },
            Direction::Right => Point {
                x: point.x + 1,
                y: point.y,
                x_actual: point.x_actual + TILE_SIZE,
                y_actual: point.y_actual,
            },
        }
    }

    /// The point for a tile address: the tile's pixel origin snapped to
    /// itself.
    pub fn get_location(&self, x: isize, y: isize) -> (p: Point)
        requires
            isize::MIN <= TILE_SIZE * x <= isize::MAX,
            isize::MIN <= TILE_SIZE * y <= isize::MAX,
        ensures
            p.x == x,
            p.y == y,
            p.wf(),
    {
        Point::new(x, y, x * TILE_SIZE, y * TILE_SIZE)
    }

    pub fn rows(&self) -> (r: isize)
        ensures
            r as int == self.spec_rows(),
    {
        self.rows
    }

    pub fn columns(&self) -> (c: isize)
        ensures
            c as int == self.spec_columns(),
    {
        self.columns
    }
}

} // verus!
