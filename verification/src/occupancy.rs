//! Tile occupancy used by the pathfinder: tiles blocked by ground units or
//! structure footprints.
use vstd::prelude::*;
use crate::cells::CellSet;

verus! {

/// Tile occupancy of the map, rebuilt each frame.
#[derive(Debug)]
pub struct OccupancyMap {
    /// Tiles blocked by ground units or structure footprints (pathfinding layer).
    pub blocked_tiles: CellSet,
    /// Structure footprint tiles (movement layer).
    pub structure_tiles: CellSet,
}

/// Whether the tile `(x, z)` blocks a unit standing on `self_pos`.
pub open spec fn tile_blocked(blocked: Set<(i32, i32)>, x: int, z: int, self_pos: (i32, i32)) -> bool {
    !(x == self_pos.0 && z == self_pos.1) && exists|c: (i32, i32)|
        #![trigger blocked.contains(c)]
        blocked.contains(c) && c.0 == x && c.1 == z
}

impl OccupancyMap {
    /// Clear all occupancy data for a fresh rebuild.
    pub fn clear(&mut self)
        ensures
            final(self).blocked_tiles@ == Set::<(i32, i32)>::empty(),
            final(self).structure_tiles@ == Set::<(i32, i32)>::empty(),
    {
        self.blocked_tiles.clear();
        self.structure_tiles.clear();
    }

    /// Check if a tile is blocked for pathfinding, with self-exclusion.
    pub fn is_blocked(&self, x: i32, z: i32, self_pos: (i32, i32)) -> (r: bool)
        ensures
            r == tile_blocked(self.blocked_tiles@, x as int, z as int, self_pos),
            r == (!(x == self_pos.0 && z == self_pos.1) && self.blocked_tiles@.contains((x, z))),
    {
        if x == self_pos.0 && z == self_pos.1 {
            return false;
        }
        let r = self.blocked_tiles.contains(&(x, z));
        proof {
            if r {
                assert(self.blocked_tiles@.contains((x, z)));
            }
        }
        r
    }
}

impl Default for OccupancyMap {
    fn default() -> (r: OccupancyMap)
        ensures
            r.blocked_tiles@ == Set::<(i32, i32)>::empty(),
            r.structure_tiles@ == Set::<(i32, i32)>::empty(),
    {
        OccupancyMap { blocked_tiles: CellSet::new(), structure_tiles: CellSet::new() }
    }
}

} // verus!
