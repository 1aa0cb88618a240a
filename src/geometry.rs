//! Tile coordinates, orientations and the tile/pixel conversions.
use vstd::prelude::*;

verus! {

/// Side length of a tile, in pixel units.
pub const TILE_SIZE: i32 = 32;

/// Half-width of an item: two items collide when both axis distances are below it.
pub const OBJ_SIZE: i32 = 8;

/// Largest grid side, so that every pixel coordinate near the grid fits in an `i32`.
pub const MAX_SIDE: u32 = 33554432;

/// An integer tile coordinate.
#[derive(Clone, Copy, Debug, PartialEq, Eq, Structural)]
pub struct Position {
    pub x: i32,
    pub y: i32,
}

impl Position {
    pub open spec fn offset(self, d: (i32, i32)) -> Position {
        Position { x: (self.x + d.0) as i32, y: (self.y + d.1) as i32 }
    }

    /// The tile `o` steps away.
    pub fn add(&self, o: (i32, i32)) -> (r: Position)
        requires
            i32::MIN <= self.x + o.0 <= i32::MAX,
            i32::MIN <= self.y + o.1 <= i32::MAX,
        ensures
            r == self.offset(o),
            r.x == self.x + o.0,
            r.y == self.y + o.1,
    {
        Position { x: self.x + o.0, y: self.y + o.1 }
    }
}

/// The direction a structure faces.
#[derive(Clone, Copy, Debug, PartialEq, Eq, Structural)]
pub enum Rotation {
    Left,
    Top,
    Right,
    Bottom,
}

impl Rotation {
    pub open spec fn spec_delta(self) -> (i32, i32) {
        match self {
            Rotation::Left => (-1i32, 0i32),
            Rotation::Top => (0i32, -1i32),
            Rotation::Right => (1, 0),
            Rotation::Bottom => (0, 1),
        }
    }

    pub open spec fn spec_delta_inv(self) -> (i32, i32) {
        (-self.spec_delta().0 as i32, -self.spec_delta().1 as i32)
    }

    pub open spec fn spec_next(self) -> Rotation {
        match self {
            Rotation::Left => Rotation::Top,
            Rotation::Top => Rotation::Right,
            Rotation::Right => Rotation::Bottom,
            Rotation::Bottom => Rotation::Left,
        }
    }

    pub open spec fn spec_angle_4(self) -> i32 {
        match self {
            Rotation::Left => 2,
            Rotation::Top => 3,
            Rotation::Right => 0,
            Rotation::Bottom => 1,
        }
    }

    /// Unit tile step in the facing direction.
    pub fn delta(&self) -> (r: (i32, i32))
        ensures
            r == self.spec_delta(),
    {
        match self {
            Rotation::Left => (-1, 0),
            Rotation::Top => (0, -1),
            Rotation::Right => (1, 0),
            Rotation::Bottom => (0, 1),
        }
    }

    /// Unit tile step against the facing direction.
    pub fn delta_inv(&self) -> (r: (i32, i32))
        ensures
            r == self.spec_delta_inv(),
            r.0 == -self.spec_delta().0,
            r.1 == -self.spec_delta().1,
    {
        let delta = self.delta();
        (-delta.0, -delta.1)
    }

    /// Quarter turn: Left, Top, Right, Bottom, then Left again.
    pub fn next(&mut self)
        ensures
            *final(self) == old(self).spec_next(),
    {
        *self = match self {
            Rotation::Left => Rotation::Top,
            Rotation::Top => Rotation::Right,
            Rotation::Right => Rotation::Bottom,
            Rotation::Bottom => Rotation::Left,
        }
    }

    /// Number of clockwise quarter turns from facing right.
    pub fn angle_4(&self) -> (r: i32)
        ensures
            r == self.spec_angle_4(),
            0 <= r < 4,
    {
        match self {
            Rotation::Left => 2,
            Rotation::Top => 3,
            Rotation::Right => 0,
            Rotation::Bottom => 1,
        }
    }

    /// The same angle in degrees.
    pub fn angle_deg(&self) -> (r: i32)
        ensures
            r == self.spec_angle_4() * 90,
    {
        self.angle_4() * 90
    }
}

/// Pixel coordinate of the centre of tile column (or row) `c`.
pub open spec fn tile_center(c: int) -> int {
    c * TILE_SIZE + TILE_SIZE / 2
}

/// The tile column (or row) that holds pixel coordinate `p`.
pub open spec fn pixel_tile(p: int) -> int {
    p / (TILE_SIZE as int)
}

/// Pixel coordinate of the centre of tile `c`.
pub fn center_pixel(c: i32) -> (r: i32)
    requires
        i32::MIN <= tile_center(c as int) <= i32::MAX,
    ensures
        r == tile_center(c as int),
{
    c * TILE_SIZE + TILE_SIZE / 2
}

/// The tile that holds pixel coordinate `p`, rounding towards negative infinity.
pub fn tile_of_pixel(p: i32) -> (r: i32)
    ensures
        r == pixel_tile(p as int),
{
    if p >= 0 {
        p / TILE_SIZE
    } else {
        let q: i32 = (-(p + 1)) / TILE_SIZE;
        assert(-(q as int) - 1 == (p as int) / 32) by (nonlinear_arith)
            requires
                q == (-(p + 1)) / 32,
                p < 0,
        ;
        -q - 1
    }
}

} // verus!
