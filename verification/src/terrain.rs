//! Procedural terrain of the map: water borders, a rugged transition band,
//! clustered mountains and cliffs, rugged patches and two small lakes.
use vstd::prelude::*;
use crate::world::TilePresetEnum;

verus! {

/// Multiplication modulo 2^32.
pub open spec fn wmul(a: u32, b: u32) -> u32 {
    ((a as nat * b as nat) % 0x1_0000_0000nat) as u32
}

/// Addition modulo 2^32.
pub open spec fn wadd(a: u32, b: u32) -> u32 {
    if a + b > u32::MAX {
        (a + b - 0x1_0000_0000) as u32
    } else {
        (a + b) as u32
    }
}

/// The spatial hash of a cell.
pub open spec fn hash_of(x: u32, z: u32) -> u32 {
    let h = wadd(wmul(x, 374761393), wmul(z, 668265263));
    let h2 = wmul(h ^ (h >> 13u32), 1274126177);
    h2 ^ (h2 >> 16u32)
}

/// A simple spatial hash for procedural terrain (multiply-xorshift, wrapping).
pub fn simple_hash(x: u32, z: u32) -> (r: u32)
    ensures
        r == hash_of(x, z),
{
    let mut h = x.wrapping_mul(374761393).wrapping_add(z.wrapping_mul(668265263));
    h = (h ^ (h >> 13)).wrapping_mul(1274126177);
    h ^ (h >> 16)
}

/// Squared distance between two cells.
pub fn dist_sq(x1: u32, z1: u32, x2: u32, z2: u32) -> (r: u32)
    requires
        x1 <= i32::MAX,
        z1 <= i32::MAX,
        x2 <= i32::MAX,
        z2 <= i32::MAX,
        (x1 - x2) * (x1 - x2) + (z1 - z2) * (z1 - z2) <= i32::MAX,
    ensures
        r == (x1 - x2) * (x1 - x2) + (z1 - z2) * (z1 - z2),
{
    let dx = x1 as i32 - x2 as i32;
    let dz = z1 as i32 - z2 as i32;
    assert(dx * dx >= 0 && dz * dz >= 0) by (nonlinear_arith);
    let sx = dx * dx;
    let sz = dz * dz;
    (sx + sz) as u32
}

/// The terrain of the cell `(x, z)` on a `width` by `height` map.
pub open spec fn tile_type_at(x: u32, z: u32, width: u32, height: u32) -> TilePresetEnum {
    if x < 2 || x >= width - 2 || z < 2 || z >= height - 2 {
        TilePresetEnum::Water
    } else if x < 5 || x >= width - 5 || z < 5 || z >= height - 5 {
        if (x + z) % 3 == 0 {
            TilePresetEnum::Water
        } else {
            TilePresetEnum::RuggedTerrain
        }
    } else {
        let hash = hash_of(x, z);
        let cluster = hash_of(x / 6, z / 6);
        let cx = width / 2;
        let cz = height / 2;
        if cluster % 17 == 0 && hash % 4 == 0 {
            TilePresetEnum::Mountain
        } else if cluster % 17 == 0 && hash % 3 == 0 {
            TilePresetEnum::Cliff
        } else if hash % 11 == 0 {
            TilePresetEnum::RuggedTerrain
        } else if (x - (cx - 12)) * (x - (cx - 12)) + (z - (cz + 8)) * (z - (cz + 8)) < 9 {
            TilePresetEnum::Water
        } else if (x - (cx + 15)) * (x - (cx + 15)) + (z - (cz - 10)) * (z - (cz - 10)) < 6 {
            TilePresetEnum::Water
        } else {
            TilePresetEnum::Plane
        }
    }
}

/// Two cells within 32760 of each other on both axes are close enough for
/// their squared distance to fit an `i32`.
proof fn lemma_small_dist(x1: u32, z1: u32, x2: u32, z2: u32)
    requires
        -32760 <= x1 - x2 <= 32760,
        -32760 <= z1 - z2 <= 32760,
    ensures
        (x1 - x2) * (x1 - x2) + (z1 - z2) * (z1 - z2) <= i32::MAX,
{
    let dx = x1 - x2;
    let dz = z1 - z2;
    assert(dx * dx <= 32760 * 32760) by (nonlinear_arith)
        requires
            -32760 <= dx <= 32760,
    ;
    assert(dz * dz <= 32760 * 32760) by (nonlinear_arith)
        requires
            -32760 <= dz <= 32760,
    ;
}

/// Terrain of a cell: water on the two outer rings, then a band of rugged
/// terrain broken by water, then mountains and cliffs in hashed clusters,
/// scattered rugged patches, two small lakes, and plains elsewhere.
pub fn determine_tile_type(x: u32, z: u32, width: u32, height: u32) -> (r: TilePresetEnum)
    requires
        24 <= width <= 65_500,
        20 <= height <= 65_500,
        x < width,
        z < height,
    ensures
        r == tile_type_at(x, z, width, height),
{
    if x < 2 || x >= width - 2 || z < 2 || z >= height - 2 {
        return TilePresetEnum::Water;
    }
    if x < 5 || x >= width - 5 || z < 5 || z >= height - 5 {
        if (x + z) % 3 == 0 {
            return TilePresetEnum::Water;
        }
        return TilePresetEnum::RuggedTerrain;
    }
    let hash = simple_hash(x, z);
    let cluster_hash = simple_hash(x / 6, z / 6);
    if cluster_hash % 17 == 0 && hash % 4 == 0 {
        return TilePresetEnum::Mountain;
    }
    if cluster_hash % 17 == 0 && hash % 3 == 0 {
        return TilePresetEnum::Cliff;
    }
    if hash % 11 == 0 {
        return TilePresetEnum::RuggedTerrain;
    }
    let cx = width / 2;
    let cz = height / 2;
    proof {
        lemma_small_dist(x, z, (cx - 12) as u32, (cz + 8) as u32);
        lemma_small_dist(x, z, (cx + 15) as u32, (cz - 10) as u32);
    }
    if dist_sq(x, z, cx - 12, cz + 8) < 9 {
        return TilePresetEnum::Water;
    }
    if dist_sq(x, z, cx + 15, cz - 10) < 6 {
        return TilePresetEnum::Water;
    }
    TilePresetEnum::Plane
}

/// The two outer rings of the map are always water.
pub proof fn law_water_border(x: u32, z: u32, width: u32, height: u32)
    requires
        24 <= width,
        20 <= height,
        x < 2 || z < 2 || x >= width - 2 || z >= height - 2,
    ensures
        tile_type_at(x, z, width, height) == TilePresetEnum::Water,
{
}

} // verus!
