//! The tile grid of the world map: its size, clamping positions to tiles,
//! and the tile the world director looks at.
use vstd::prelude::*;

verus! {

/// A tile's column and row.
#[derive(Clone, Copy, Debug, PartialEq, Eq, Structural, Hash)]
pub struct TileCoord {
    pub x: i32,
    pub y: i32,
}

/// The size of the map in tiles.
#[derive(Clone, Copy, Debug, PartialEq, Eq, Structural)]
pub struct MapSize {
    pub width: i32,
    pub height: i32,
}

/// `v` clamped to [lo, hi].
pub open spec fn clamp_i32(v: i32, lo: i32, hi: i32) -> i32 {
    if v < lo { lo } else if v > hi { hi } else { v }
}

impl MapSize {
    /// The standard map: 24 by 14 tiles.
    pub fn standard() -> (r: Self)
        ensures
            r.width == 24 && r.height == 14,
    {
        MapSize { width: 24, height: 14 }
    }

    /// The tile that holds a position, given the position's column and row
    /// counted from the map's lower left corner (which may lie outside the
    /// map); positions beyond an edge belong to the edge tile.
    pub fn clamp_tile(&self, column: i32, row: i32) -> (r: TileCoord)
        requires
            self.width >= 1,
            self.height >= 1,
        ensures
            r.x == clamp_i32(column, 0, (self.width - 1) as i32),
            r.y == clamp_i32(row, 0, (self.height - 1) as i32),
            0 <= r.x < self.width,
            0 <= r.y < self.height,
    {
        let max_x = self.width - 1;
        let max_y = self.height - 1;
        let x = if column < 0 { 0 } else if column > max_x { max_x } else { column };
        let y = if row < 0 { 0 } else if row > max_y { max_y } else { row };
        TileCoord { x, y }
    }
}

/// The tile the world director watches at `tick`: it sweeps the columns
/// every 97 ticks and the rows every 131 ticks. Sizes below one count as one.
pub open spec fn focus_of(size: MapSize, tick: u64) -> TileCoord {
    let w = if size.width > 1 { size.width as int } else { 1 };
    let h = if size.height > 1 { size.height as int } else { 1 };
    TileCoord { x: ((tick as int / 97) % w) as i32, y: ((tick as int / 131) % h) as i32 }
}

/// The tile the world director watches at `tick`; it always lies on the map.
pub fn focus_coord(size: &MapSize, tick: u64) -> (r: TileCoord)
    ensures
        r == focus_of(*size, tick),
        0 <= r.x && (r.x < size.width || size.width <= 1),
        0 <= r.y && (r.y < size.height || size.height <= 1),
{
    let width: i32 = if size.width > 1 { size.width } else { 1 };
    let height: i32 = if size.height > 1 { size.height } else { 1 };
    let x = ((tick / 97) % (width as u64)) as i32;
    let y = ((tick / 131) % (height as u64)) as i32;
    TileCoord { x, y }
}

} // verus!
