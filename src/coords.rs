use vstd::prelude::*;

verus! {

/// Width of a tile's sprite on screen, in pixels.
pub const TILE_WIDTH: i32 = 32;

/// Height of a tile's top face on screen, in pixels.
pub const TILE_HEIGHT: i32 = 16;

/// The integer grid position of a tile. Tiles are ordered by layer (y), then
/// row (z), then column (x), which is the order the fields are declared in.
#[derive(Clone, Copy, Debug, PartialEq, Eq, Structural, Hash, Ord)]
pub struct TileCoords {
    pub y: i32,
    pub z: i32,
    pub x: i32,
}

/// Whether `a` comes before `b`: lower layer first, then lower row, then
/// lower column.
pub open spec fn tile_before(a: TileCoords, b: TileCoords) -> bool {
    a.y < b.y || (a.y == b.y && (a.z < b.z || (a.z == b.z && a.x < b.x)))
}

pub open spec fn tile_order(a: TileCoords, b: TileCoords) -> core::cmp::Ordering {
    if tile_before(a, b) {
        core::cmp::Ordering::Less
    } else if a == b {
        core::cmp::Ordering::Equal
    } else {
        core::cmp::Ordering::Greater
    }
}

/// The screen position of a tile, in pixels: x across and y up the screen,
/// and a depth that grows towards the viewer.
pub open spec fn screen_position_spec(c: TileCoords) -> (int, int, int) {
    (
        (c.x - c.z) * 16,
        c.y * 16 - (c.x + c.z) * 8,
        c.x + c.z + c.y,
    )
}

/// Whether every step of `screen_position` fits in an `i32`.
pub open spec fn screen_position_fits(c: TileCoords) -> bool {
    &&& i32::MIN <= c.x - c.z <= i32::MAX
    &&& i32::MIN <= (c.x - c.z) * 32 <= i32::MAX
    &&& i32::MIN <= c.y * 16 <= i32::MAX
    &&& i32::MIN <= c.x + c.z <= i32::MAX
    &&& i32::MIN <= (c.x + c.z) * 16 <= i32::MAX
    &&& i32::MIN <= c.y * 16 - (c.x + c.z) * 8 <= i32::MAX
    &&& i32::MIN <= c.x + c.z + c.y <= i32::MAX
}

impl TileCoords {
    pub fn new(x: i32, y: i32, z: i32) -> (r: Self)
        ensures
            r == (TileCoords { y, z, x }),
    {
        TileCoords { y, z, x }
    }

    /// Compares two tiles by layer, then row, then column.
    pub fn compare(&self, other: &TileCoords) -> (r: core::cmp::Ordering)
        ensures
            r == tile_order(*self, *other),
    {
        if self.y < other.y {
            core::cmp::Ordering::Less
        } else if self.y > other.y {
            core::cmp::Ordering::Greater
        } else if self.z < other.z {
            core::cmp::Ordering::Less
        } else if self.z > other.z {
            core::cmp::Ordering::Greater
        } else if self.x < other.x {
            core::cmp::Ordering::Less
        } else if self.x > other.x {
            core::cmp::Ordering::Greater
        } else {
            core::cmp::Ordering::Equal
        }
    }

    /// Where the tile is drawn: half a sprite across per step in x or
    /// against z, half a top face down per step in x or z, a top face up per
    /// layer.
    pub fn screen_position(&self) -> (r: (i32, i32, i32))
        requires
            screen_position_fits(*self),
        ensures
            (r.0 as int, r.1 as int, r.2 as int) == screen_position_spec(*self),
    {
        let sx = (self.x - self.z) * TILE_WIDTH / 2;
        let sy = (self.y * TILE_HEIGHT) - (self.x + self.z) * TILE_HEIGHT / 2;
        let sz = self.x + self.z + self.y;
        (sx, sy, sz)
    }
}

impl PartialOrd for TileCoords {
    fn partial_cmp(&self, other: &TileCoords) -> (r: Option<core::cmp::Ordering>) {
        Some(self.compare(other))
    }
}

impl vstd::std_specs::cmp::PartialOrdSpecImpl for TileCoords {
    open spec fn obeys_partial_cmp_spec() -> bool {
        true
    }

    open spec fn partial_cmp_spec(&self, other: &TileCoords) -> Option<core::cmp::Ordering> {
        Some(tile_order(*self, *other))
    }
}

} // verus!
