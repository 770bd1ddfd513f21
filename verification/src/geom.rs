//! Tile and pixel geometry.
//!
//! Screen layout is done on an 8x8-pixel tile grid: entry cells, window
//! rectangles and background fills are given in tile coordinates and
//! converted to pixel coordinates where sprites are positioned.

use vstd::prelude::*;

verus! {

/// Pixels per tile edge.
pub const TILE_SIZE: i32 = 8;

/// A two-dimensional coordinate or extent.
#[derive(Clone, Copy, PartialEq, Eq, Structural, Debug)]
pub struct Vec2D {
    pub x: i32,
    pub y: i32,
}

impl Vec2D {
    pub fn new(x: i32, y: i32) -> (v: Vec2D)
        ensures
            v.x == x && v.y == y,
    {
        Vec2D { x, y }
    }

    /// Convert a tile coordinate to the pixel coordinate of its top-left corner.
    pub fn tile_to_pixel(self) -> (v: Vec2D)
        requires
            8 * self.x <= i32::MAX,
            8 * self.x >= i32::MIN,
            8 * self.y <= i32::MAX,
            8 * self.y >= i32::MIN,
        ensures
            v.x == 8 * self.x,
            v.y == 8 * self.y,
    {
        Vec2D { x: self.x * TILE_SIZE, y: self.y * TILE_SIZE }
    }

    /// The area spanned by this extent.
    pub fn size(&self) -> (r: i32)
        requires
            self.x * self.y <= i32::MAX,
            self.x * self.y >= i32::MIN,
        ensures
            r == self.x * self.y,
    {
        self.x * self.y
    }
}

/// An axis-aligned rectangle, in tile or pixel units.
#[derive(Clone, Copy, PartialEq, Eq, Structural, Debug)]
pub struct Rect {
    pub x: i32,
    pub y: i32,
    pub width: i32,
    pub height: i32,
}

impl Rect {
    pub fn new(x: i32, y: i32, width: i32, height: i32) -> (r: Rect)
        ensures
            r.x == x && r.y == y && r.width == width && r.height == height,
    {
        Rect { x, y, width, height }
    }

    /// The rectangle with top-left corner `pos` and extent `size`.
    pub fn from_vecs(pos: Vec2D, size: Vec2D) -> (r: Rect)
        ensures
            r.x == pos.x && r.y == pos.y && r.width == size.x && r.height == size.y,
    {
        Rect { x: pos.x, y: pos.y, width: size.x, height: size.y }
    }

    /// The rectangle's extent.
    pub fn dim(&self) -> (v: Vec2D)
        ensures
            v.x == self.width && v.y == self.height,
    {
        Vec2D { x: self.width, y: self.height }
    }

    /// The rectangle's top-left corner.
    pub fn pos(&self) -> (v: Vec2D)
        ensures
            v.x == self.x && v.y == self.y,
    {
        Vec2D { x: self.x, y: self.y }
    }

    /// Convert a tile-grid rectangle to pixel units.
    pub fn tile_to_pixel(self) -> (r: Rect)
        requires
            0 <= self.x && 8 * self.x <= i32::MAX,
            0 <= self.y && 8 * self.y <= i32::MAX,
            0 <= self.width && 8 * self.width <= i32::MAX,
            0 <= self.height && 8 * self.height <= i32::MAX,
        ensures
            r.x == 8 * self.x,
            r.y == 8 * self.y,
            r.width == 8 * self.width,
            r.height == 8 * self.height,
    {
        Rect {
            x: self.x * TILE_SIZE,
            y: self.y * TILE_SIZE,
            width: self.width * TILE_SIZE,
            height: self.height * TILE_SIZE,
        }
    }
}

} // verus!
