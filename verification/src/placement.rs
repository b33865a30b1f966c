//! Placement rules on the grid: the GDO build area, fog-of-war visibility of
//! a footprint, the checks for placing buildings and tunnel expansions, and
//! footprint geometry (rotation, spawn side, vision center).
use vstd::prelude::*;
use crate::cells::CellSet;
use crate::objects::{ObjectEnum, StructureRotation};
use crate::structures::{TunnelArea, rect_cells};
use crate::world::{GridPosition, SpaceCrystalPatch, TilePreset};
use crate::fog::{FogOfWarMap, VisibilityStateEnum};

verus! {

/// The footprint of `size_x` by `size_z` cells at `(pos_x, pos_z)` stays
/// inside the `i32` range.
pub open spec fn footprint_fits(pos_x: i32, pos_z: i32, size_x: u32, size_z: u32) -> bool {
    &&& size_x <= i32::MAX
    &&& size_z <= i32::MAX
    &&& pos_x as int + size_x as int <= i32::MAX + 1
    &&& pos_z as int + size_z as int <= i32::MAX + 1
}

/// The cell `(x, z)` belongs to the footprint.
pub open spec fn in_footprint(pos_x: i32, pos_z: i32, size_x: u32, size_z: u32, x: int, z: int) -> bool {
    pos_x <= x < pos_x + size_x && pos_z <= z < pos_z + size_z
}

/// Add every cell of the rectangle `x0..x1` by `z0..z1`.
fn insert_rect(cells: &mut CellSet, x0: i32, x1: i32, z0: i32, z1: i32)
    ensures
        final(cells)@ == old(cells)@.union(rect_cells(x0 as int, x1 as int, z0 as int, z1 as int)),
{
    let ghost base = cells@;
    let mut x = x0;
    if x0 >= x1 {
        proof {
            assert(rect_cells(x0 as int, x1 as int, z0 as int, z1 as int) =~= Set::empty());
            assert(cells@ =~= base.union(rect_cells(x0 as int, x1 as int, z0 as int, z1 as int)));
        }
        return;
    }
    proof {
        assert(cells@ =~= base.union(rect_cells(x0 as int, x0 as int, z0 as int, z1 as int)));
    }
    while x < x1
        invariant
            x0 <= x <= x1,
            cells@ == base.union(rect_cells(x0 as int, x as int, z0 as int, z1 as int)),
        decreases x1 - x,
    {
        let mut z = z0;
        proof {
            assert(cells@ =~= base.union(rect_cells(x0 as int, x as int, z0 as int, z1 as int)).union(
                rect_cells(x as int, x + 1, z0 as int, z as int),
            ));
        }
        while z < z1
            invariant
                x0 <= x < x1,
                z0 <= z,
                z <= z1 || z == z0,
                cells@ == base.union(rect_cells(x0 as int, x as int, z0 as int, z1 as int)).union(
                    rect_cells(x as int, x + 1, z0 as int, z as int),
                ),
            decreases z1 - z,
        {
            cells.insert((x, z));
            proof {
                assert(cells@ =~= base.union(rect_cells(x0 as int, x as int, z0 as int, z1 as int)).union(
                    rect_cells(x as int, x + 1, z0 as int, z + 1),
                ));
            }
            z = z + 1;
        }
        proof {
            assert(cells@ =~= base.union(rect_cells(x0 as int, x + 1, z0 as int, z1 as int)));
        }
        x = x + 1;
    }
}

/// Cells where GDO structures may be placed.
#[derive(Clone, Debug)]
pub struct GdoBuildArea {
    pub cells: CellSet,
}

impl Default for GdoBuildArea {
    fn default() -> (r: Self)
        ensures
            r.cells@ == Set::<(i32, i32)>::empty(),
    {
        GdoBuildArea { cells: CellSet::new() }
    }
}

/// The cell lies within Chebyshev distance `ext` of some cell of the footprint.
pub open spec fn within_reach(
    pos_x: i32,
    pos_z: i32,
    size_x: u32,
    size_z: u32,
    ext: u32,
    c: (i32, i32),
) -> bool {
    exists|cx: int, cz: int|
        #![trigger in_footprint(pos_x, pos_z, size_x, size_z, cx, cz)]
        in_footprint(pos_x, pos_z, size_x, size_z, cx, cz) && cx - ext <= c.0 <= cx + ext && cz - ext <= c.1
            <= cz + ext
}

impl GdoBuildArea {
    /// Whether the cell is in the build area.
    pub fn contains(&self, x: i32, z: i32) -> (r: bool)
        ensures
            r == self.cells@.contains((x, z)),
    {
        self.cells.contains(&(x, z))
    }

    /// Whether at least one cell of the footprint is in the build area.
    pub fn overlaps_footprint(&self, pos_x: i32, pos_z: i32, size_x: u32, size_z: u32) -> (r: bool)
        requires
            footprint_fits(pos_x, pos_z, size_x, size_z),
        ensures
            r == exists|x: i32, z: i32|
                in_footprint(pos_x, pos_z, size_x, size_z, x as int, z as int) && #[trigger] self.cells@.contains(
                    (x, z),
                ),
    {
        let sx = size_x as i32;
        let sz = size_z as i32;
        let mut dx: i32 = 0;
        while dx < sx
            invariant
                footprint_fits(pos_x, pos_z, size_x, size_z),
                sx == size_x,
                sz == size_z,
                0 <= dx <= sx,
                forall|x: i32, z: i32|
                    pos_x <= x < pos_x + dx && pos_z <= z < pos_z + size_z ==> !#[trigger] self.cells@.contains((x, z)),
            decreases sx - dx,
        {
            let mut dz: i32 = 0;
            while dz < sz
                invariant
                    footprint_fits(pos_x, pos_z, size_x, size_z),
                    sx == size_x,
                    sz == size_z,
                    0 <= dx < sx,
                    0 <= dz <= sz,
                    forall|x: i32, z: i32|
                        pos_x <= x < pos_x + dx && pos_z <= z < pos_z + size_z ==> !#[trigger] self.cells@.contains(
                            (x, z),
                        ),
                    forall|z: i32| pos_z <= z < pos_z + dz ==> !#[trigger] self.cells@.contains(((pos_x + dx) as i32, z)),
                decreases sz - dz,
            {
                if self.contains(pos_x + dx, pos_z + dz) {
                    proof {
                        let x = (pos_x + dx) as i32;
                        let z = (pos_z + dz) as i32;
                        assert(in_footprint(pos_x, pos_z, size_x, size_z, x as int, z as int));
                        assert(self.cells@.contains((x, z)));
                    }
                    return true;
                }
                dz = dz + 1;
            }
            proof {
                assert forall|x: i32, z: i32|
                    pos_x <= x < pos_x + dx + 1 && pos_z <= z < pos_z + size_z implies !#[trigger] self.cells@.contains(
                        (x, z),
                    ) by {
                    if x == pos_x + dx {
                        assert(!self.cells@.contains(((pos_x + dx) as i32, z)));
                    }
                }
            }
            dx = dx + 1;
        }
        false
    }
}

/// Grow the build area by every cell within Chebyshev distance `extension`
/// of the building's footprint.
pub fn expand_build_area(
    build_area: &mut GdoBuildArea,
    building_pos_x: i32,
    building_pos_z: i32,
    building_size_x: u32,
    building_size_z: u32,
    extension: u32,
)
    requires
        building_size_x <= i32::MAX,
        building_size_z <= i32::MAX,
        extension <= i32::MAX,
        building_pos_x as int - extension as int >= i32::MIN,
        building_pos_z as int - extension as int >= i32::MIN,
        building_pos_x as int + building_size_x as int + extension as int <= i32::MAX,
        building_pos_z as int + building_size_z as int + extension as int <= i32::MAX,
    ensures
        forall|c: (i32, i32)|
            #[trigger] final(build_area).cells@.contains(c) <==> old(build_area).cells@.contains(c) || within_reach(
                building_pos_x,
                building_pos_z,
                building_size_x,
                building_size_z,
                extension,
                c,
            ),
{
    if building_size_x == 0 || building_size_z == 0 {
        proof {
            assert forall|c: (i32, i32)|
                !within_reach(building_pos_x, building_pos_z, building_size_x, building_size_z, extension, c) by {}
        }
        return;
    }
    let ext = extension as i32;
    let x0 = building_pos_x - ext;
    let x1 = building_pos_x + building_size_x as i32 + ext;
    let z0 = building_pos_z - ext;
    let z1 = building_pos_z + building_size_z as i32 + ext;
    insert_rect(&mut build_area.cells, x0, x1, z0, z1);
    proof {
        assert forall|c: (i32, i32)|
            within_reach(building_pos_x, building_pos_z, building_size_x, building_size_z, extension, c)
                <==> rect_cells(x0 as int, x1 as int, z0 as int, z1 as int).contains(c) by {
            if rect_cells(x0 as int, x1 as int, z0 as int, z1 as int).contains(c) {
                let cx: int = if c.0 < building_pos_x {
                    building_pos_x as int
                } else if c.0 >= building_pos_x + building_size_x {
                    building_pos_x + building_size_x - 1
                } else {
                    c.0 as int
                };
                let cz: int = if c.1 < building_pos_z {
                    building_pos_z as int
                } else if c.1 >= building_pos_z + building_size_z {
                    building_pos_z + building_size_z - 1
                } else {
                    c.1 as int
                };
                assert(in_footprint(building_pos_x, building_pos_z, building_size_x, building_size_z, cx, cz));
            }
        }
    }
}

/// Footprint size after rotation: quarter turns swap width and depth.
pub fn rotated_building_size(base_size_x: u32, base_size_z: u32, rotation: &StructureRotation) -> (r: (u32, u32))
    ensures
        r == match *rotation {
            StructureRotation::R0 | StructureRotation::R180 => (base_size_x, base_size_z),
            StructureRotation::R90 | StructureRotation::R270 => (base_size_z, base_size_x),
        },
{
    match rotation {
        StructureRotation::R0 | StructureRotation::R180 => (base_size_x, base_size_z),
        StructureRotation::R90 | StructureRotation::R270 => (base_size_z, base_size_x),
    }
}

/// First index of the side labelled `'B'` among the oriented labels
/// (north, east, south, west).
pub open spec fn b_side(labels: [char; 4]) -> Option<int> {
    if labels@[0] == 'B' {
        Some(0)
    } else if labels@[1] == 'B' {
        Some(1)
    } else if labels@[2] == 'B' {
        Some(2)
    } else if labels@[3] == 'B' {
        Some(3)
    } else {
        None
    }
}

/// Offset from a structure's origin of the tile where produced units appear:
/// one tile beyond the side labelled `'B'` (oriented labels north, east,
/// south, west), or, without such a side, beyond the side the rotation faces
/// (R0 south, R90 east, R180 north, R270 west). `base_w` by `base_h` is the
/// unrotated footprint.
pub fn spawn_side_offset(base_w: u32, base_h: u32, rotation: StructureRotation, labels: [char; 4]) -> (r: (i32, i32))
    requires
        base_w <= i32::MAX,
        base_h <= i32::MAX,
    ensures
        ({
            let (w, h) = match rotation {
                StructureRotation::R0 | StructureRotation::R180 => (base_w as int, base_h as int),
                StructureRotation::R90 | StructureRotation::R270 => (base_h as int, base_w as int),
            };
            let side = match b_side(labels) {
                Some(i) => i,
                None => match rotation {
                    StructureRotation::R0 => 2,
                    StructureRotation::R90 => 1,
                    StructureRotation::R180 => 0,
                    StructureRotation::R270 => 3,
                },
            };
            (r.0 as int, r.1 as int) == if side == 0 {
                (w / 2, -1int)
            } else if side == 1 {
                (w, h / 2)
            } else if side == 2 {
                (w / 2, h)
            } else {
                (-1int, h / 2)
            }
        }),
{
    let (w, h) = rotated_building_size(base_w, base_h, &rotation);
    let wi = w as i32;
    let hi = h as i32;
    let side: u8 = if labels[0] == 'B' {
        0
    } else if labels[1] == 'B' {
        1
    } else if labels[2] == 'B' {
        2
    } else if labels[3] == 'B' {
        3
    } else {
        match rotation {
            StructureRotation::R0 => 2,
            StructureRotation::R90 => 1,
            StructureRotation::R180 => 0,
            StructureRotation::R270 => 3,
        }
    };
    if side == 0 {
        (wi / 2, -1)
    } else if side == 1 {
        (wi, hi / 2)
    } else if side == 2 {
        (wi / 2, hi)
    } else {
        (-1, hi / 2)
    }
}

/// A spawn tile never lies on the structure's own footprint: it lies just
/// beyond one side, alongside that side.
pub proof fn law_spawn_outside_footprint(w: int, h: int, side: int)
    requires
        w >= 1,
        h >= 1,
        0 <= side < 4,
    ensures
        ({
            let (dx, dz) = if side == 0 {
                (w / 2, -1int)
            } else if side == 1 {
                (w, h / 2)
            } else if side == 2 {
                (w / 2, h)
            } else {
                (-1int, h / 2)
            };
            &&& !(0 <= dx < w && 0 <= dz < h)
            &&& ((dx == -1 || dx == w) && 0 <= dz < h) || ((dz == -1 || dz == h) && 0 <= dx < w)
        }),
{
}

/// Selection priority of box selection, highest first.
#[derive(Clone, Copy, Debug, PartialEq, Eq, Structural)]
pub enum SelectionTier {
    OwnUnits,
    OwnStructures,
    EnemyUnits,
    EnemyStructures,
    Neutrals,
}

/// Rank of a tier: lower ranks take priority.
pub open spec fn tier_priority(t: SelectionTier) -> int {
    match t {
        SelectionTier::OwnUnits => 0,
        SelectionTier::OwnStructures => 1,
        SelectionTier::EnemyUnits => 2,
        SelectionTier::EnemyStructures => 3,
        SelectionTier::Neutrals => 4,
    }
}

/// Selection tier of an entity from its ownership and kind.
pub fn classify_selection_tier(is_owned: bool, is_neutral: bool, is_unit: bool, is_structure: bool) -> (r:
    SelectionTier)
    ensures
        r == if is_owned && is_unit {
            SelectionTier::OwnUnits
        } else if is_owned && is_structure {
            SelectionTier::OwnStructures
        } else if !is_neutral && is_unit {
            SelectionTier::EnemyUnits
        } else if !is_neutral && is_structure {
            SelectionTier::EnemyStructures
        } else {
            SelectionTier::Neutrals
        },
{
    if is_owned && is_unit {
        SelectionTier::OwnUnits
    } else if is_owned && is_structure {
        SelectionTier::OwnStructures
    } else if !is_neutral && is_unit {
        SelectionTier::EnemyUnits
    } else if !is_neutral && is_structure {
        SelectionTier::EnemyStructures
    } else {
        SelectionTier::Neutrals
    }
}

/// Check that an underground expansion lies inside the tunnel's area and on
/// no cell of an existing expansion.
pub fn can_place_expansion(
    pos_x: i32,
    pos_z: i32,
    size_x: u32,
    size_z: u32,
    tunnel_area: &TunnelArea,
    existing_expansion_positions: &[(i32, i32)],
) -> (r: Result<(), &'static str>)
    requires
        footprint_fits(pos_x, pos_z, size_x, size_z),
    ensures
        !(forall|x: i32, z: i32|
            in_footprint(pos_x, pos_z, size_x, size_z, x as int, z as int) ==> #[trigger] tunnel_area.cells@.contains(
                (x, z),
            )) ==> r == Err::<(), &'static str>("Expansion does not fit within Tunnel Area"),
        (forall|x: i32, z: i32|
            in_footprint(pos_x, pos_z, size_x, size_z, x as int, z as int) ==> #[trigger] tunnel_area.cells@.contains(
                (x, z),
            )) ==> r == if exists|x: i32, z: i32|
            in_footprint(pos_x, pos_z, size_x, size_z, x as int, z as int)
                && #[trigger] existing_expansion_positions@.contains((x, z)) {
            Err::<(), &'static str>("Overlaps existing expansion")
        } else {
            Ok::<(), &'static str>(())
        },
{
    if !tunnel_area.fits_expansion(pos_x, pos_z, size_x, size_z) {
        proof {
            let (x, z) = choose|x: i32, z: i32|
                !(pos_x <= x < pos_x + size_x && pos_z <= z < pos_z + size_z ==> #[trigger] tunnel_area.cells@.contains(
                    (x, z),
                ));
            assert(in_footprint(pos_x, pos_z, size_x, size_z, x as int, z as int));
        }
        return Err("Expansion does not fit within Tunnel Area");
    }
    let sx = size_x as i32;
    let sz = size_z as i32;
    let n = existing_expansion_positions.len();
    let mut dx: i32 = 0;
    while dx < sx
        invariant
            footprint_fits(pos_x, pos_z, size_x, size_z),
            sx == size_x,
            sz == size_z,
            n == existing_expansion_positions@.len(),
            0 <= dx <= sx,
            forall|x: i32, z: i32|
                pos_x <= x < pos_x + size_x && pos_z <= z < pos_z + size_z ==> #[trigger] tunnel_area.cells@.contains(
                    (x, z),
                ),
            forall|x: i32, z: i32|
                pos_x <= x < pos_x + dx && pos_z <= z < pos_z + size_z ==> !#[trigger] existing_expansion_positions@.contains(
                    (x, z),
                ),
        decreases sx - dx,
    {
        let mut dz: i32 = 0;
        while dz < sz
            invariant
                footprint_fits(pos_x, pos_z, size_x, size_z),
                sx == size_x,
                sz == size_z,
                n == existing_expansion_positions@.len(),
                0 <= dx < sx,
                0 <= dz <= sz,
                forall|x: i32, z: i32|
                    pos_x <= x < pos_x + size_x && pos_z <= z < pos_z + size_z ==> #[trigger] tunnel_area.cells@.contains(
                        (x, z),
                    ),
                forall|x: i32, z: i32|
                    pos_x <= x < pos_x + dx && pos_z <= z < pos_z + size_z
                        ==> !#[trigger] existing_expansion_positions@.contains((x, z)),
                forall|z: i32|
                    pos_z <= z < pos_z + dz ==> !#[trigger] existing_expansion_positions@.contains(
                        ((pos_x + dx) as i32, z),
                    ),
            decreases sz - dz,
        {
            let cx = pos_x + dx;
            let cz = pos_z + dz;
            let mut k: usize = 0;
            while k < n
                invariant
                    footprint_fits(pos_x, pos_z, size_x, size_z),
                    sx == size_x,
                    sz == size_z,
                    0 <= dx < sx,
                    0 <= dz < sz,
                    cx == pos_x + dx,
                    cz == pos_z + dz,
                    forall|x: i32, z: i32|
                        pos_x <= x < pos_x + size_x && pos_z <= z < pos_z + size_z ==> #[trigger] tunnel_area.cells@.contains(
                            (x, z),
                        ),
                    n == existing_expansion_positions@.len(),
                    0 <= k <= n,
                    forall|j: int| 0 <= j < k ==> #[trigger] existing_expansion_positions@[j] != (cx, cz),
                decreases n - k,
            {
                let p = existing_expansion_positions[k];
                if p.0 == cx && p.1 == cz {
                    proof {
                        assert(existing_expansion_positions@[k as int] == (cx, cz));
                        assert(existing_expansion_positions@.contains((cx, cz)));
                        assert(in_footprint(pos_x, pos_z, size_x, size_z, cx as int, cz as int));
                    }
                    return Err("Overlaps existing expansion");
                }
                k = k + 1;
            }
            dz = dz + 1;
        }
        proof {
            assert forall|x: i32, z: i32|
                pos_x <= x < pos_x + dx + 1 && pos_z <= z < pos_z + size_z
                    implies !#[trigger] existing_expansion_positions@.contains((x, z)) by {
                if x == pos_x + dx {
                    assert(!existing_expansion_positions@.contains(((pos_x + dx) as i32, z)));
                }
            }
        }
        dx = dx + 1;
    }
    Ok(())
}

/// Vision center of an entity: a structure's grid position offset by half its
/// footprint, a unit's position as is.
pub fn vision_center(grid_x: i32, grid_z: i32, size: Option<(u32, u32)>) -> (r: (i32, i32))
    requires
        size matches Some((sx, sz)) ==> sx <= i32::MAX && sz <= i32::MAX && grid_x + sx / 2 <= i32::MAX && grid_z + sz
            / 2 <= i32::MAX,
    ensures
        r == match size {
            Some((sx, sz)) => ((grid_x + sx / 2) as i32, (grid_z + sz / 2) as i32),
            None => (grid_x, grid_z),
        },
{
    match size {
        Some((sx, sz)) => (grid_x + (sx as i32) / 2, grid_z + (sz as i32) / 2),
        None => (grid_x, grid_z),
    }
}

/// Every cell of the footprint is visible to the player.
pub open spec fn footprint_visible(fog: FogOfWarMap, player_id: u8, pos_x: i32, pos_z: i32, size_x: u32, size_z: u32) -> bool {
    forall|x: i32, z: i32|
        in_footprint(pos_x, pos_z, size_x, size_z, x as int, z as int) ==> #[trigger] fog.state(player_id, x as int, z as int)
            == VisibilityStateEnum::Visible
}

/// Whether every tile under the footprint is visible to the player.
pub fn footprint_is_visible(
    fog_map: &FogOfWarMap,
    player_id: u8,
    pos_x: i32,
    pos_z: i32,
    size_x: u32,
    size_z: u32,
) -> (r: bool)
    requires
        fog_map.wf(),
        footprint_fits(pos_x, pos_z, size_x, size_z),
    ensures
        r == footprint_visible(*fog_map, player_id, pos_x, pos_z, size_x, size_z),
{
    let sx = size_x as i32;
    let sz = size_z as i32;
    let mut dx: i32 = 0;
    while dx < sx
        invariant
            fog_map.wf(),
            footprint_fits(pos_x, pos_z, size_x, size_z),
            sx == size_x,
            sz == size_z,
            0 <= dx <= sx,
            forall|x: i32, z: i32|
                pos_x <= x < pos_x + dx && pos_z <= z < pos_z + size_z ==> #[trigger] fog_map.state(
                    player_id,
                    x as int,
                    z as int,
                ) == VisibilityStateEnum::Visible,
        decreases sx - dx,
    {
        let mut dz: i32 = 0;
        while dz < sz
            invariant
                fog_map.wf(),
                footprint_fits(pos_x, pos_z, size_x, size_z),
                sx == size_x,
                sz == size_z,
                0 <= dx < sx,
                0 <= dz <= sz,
                forall|x: i32, z: i32|
                    pos_x <= x < pos_x + dx && pos_z <= z < pos_z + size_z ==> #[trigger] fog_map.state(
                        player_id,
                        x as int,
                        z as int,
                    ) == VisibilityStateEnum::Visible,
                forall|z: i32|
                    pos_z <= z < pos_z + dz ==> #[trigger] fog_map.state(player_id, pos_x + dx, z as int)
                        == VisibilityStateEnum::Visible,
            decreases sz - dz,
        {
            let v = fog_map.get(player_id, pos_x + dx, pos_z + dz);
            if v != VisibilityStateEnum::Visible {
                proof {
                    let x = (pos_x + dx) as i32;
                    let z = (pos_z + dz) as i32;
                    assert(in_footprint(pos_x, pos_z, size_x, size_z, x as int, z as int));
                    assert(fog_map.state(player_id, x as int, z as int) != VisibilityStateEnum::Visible);
                }
                return false;
            }
            dz = dz + 1;
        }
        proof {
            assert forall|x: i32, z: i32|
                pos_x <= x < pos_x + dx + 1 && pos_z <= z < pos_z + size_z implies #[trigger] fog_map.state(
                    player_id,
                    x as int,
                    z as int,
                ) == VisibilityStateEnum::Visible by {
                if x == pos_x + dx {
                    assert(fog_map.state(player_id, pos_x + dx, z as int) == VisibilityStateEnum::Visible);
                }
            }
        }
        dx = dx + 1;
    }
    true
}

/// What is wrong with one cell of a footprint.
#[derive(Clone, Copy, Debug, PartialEq, Eq, Structural)]
pub enum CellFault {
    NoTile,
    NotBuildable,
    Overlap,
}

/// Buildability of the first tile at `(x, z)` from position `k` of the list on.
pub open spec fn first_tile_from(tiles: Seq<(GridPosition, TilePreset)>, k: int, x: int, z: int) -> Option<bool>
    decreases tiles.len() - k,
{
    if k < 0 || k >= tiles.len() {
        None
    } else if tiles[k].0.x == x && tiles[k].0.z == z {
        Some(tiles[k].1.buildable)
    } else {
        first_tile_from(tiles, k + 1, x, z)
    }
}

/// Structure footprints (origin and size) stay inside the `i32` range.
pub open spec fn structures_fit(structures: Seq<(GridPosition, (u32, u32))>) -> bool {
    forall|i: int|
        0 <= i < structures.len() ==> (#[trigger] structures[i]).1.0 <= i32::MAX && structures[i].1.1 <= i32::MAX
            && structures[i].0.x + structures[i].1.0 <= i32::MAX && structures[i].0.z + structures[i].1.1 <= i32::MAX
}

/// Some structure's footprint covers the cell.
pub open spec fn covered(structures: Seq<(GridPosition, (u32, u32))>, x: int, z: int) -> bool {
    exists|i: int|
        0 <= i < structures.len() && (#[trigger] structures[i]).0.x <= x < structures[i].0.x + structures[i].1.0
            && structures[i].0.z <= z < structures[i].0.z + structures[i].1.1
}

/// What is wrong with placing on the cell: no tile, an unbuildable tile, or a
/// structure in the way.
pub open spec fn cell_fault(
    tiles: Seq<(GridPosition, TilePreset)>,
    structures: Seq<(GridPosition, (u32, u32))>,
    x: int,
    z: int,
) -> Option<CellFault> {
    match first_tile_from(tiles, 0, x, z) {
        None => Some(CellFault::NoTile),
        Some(false) => Some(CellFault::NotBuildable),
        Some(true) => if covered(structures, x, z) {
            Some(CellFault::Overlap)
        } else {
            None
        },
    }
}

/// The first fault over the footprint's cells, column by column from
/// `(dx, dz)` on.
pub open spec fn scan_fault(
    tiles: Seq<(GridPosition, TilePreset)>,
    structures: Seq<(GridPosition, (u32, u32))>,
    pos_x: int,
    pos_z: int,
    size_x: int,
    size_z: int,
    dx: int,
    dz: int,
) -> Option<CellFault>
    decreases size_x - dx, size_z - dz,
{
    if dx < 0 || dx >= size_x {
        None
    } else if dz < 0 || dz >= size_z {
        scan_fault(tiles, structures, pos_x, pos_z, size_x, size_z, dx + 1, 0)
    } else {
        match cell_fault(tiles, structures, pos_x + dx, pos_z + dz) {
            Some(f) => Some(f),
            None => scan_fault(tiles, structures, pos_x, pos_z, size_x, size_z, dx, dz + 1),
        }
    }
}

/// The scan from `(dx, dz)` finds no fault exactly when no cell it visits has one.
proof fn lemma_scan_none(
    tiles: Seq<(GridPosition, TilePreset)>,
    structures: Seq<(GridPosition, (u32, u32))>,
    pos_x: int,
    pos_z: int,
    size_x: int,
    size_z: int,
    dx: int,
    dz: int,
)
    requires
        0 <= dx,
        0 <= dz,
    ensures
        scan_fault(tiles, structures, pos_x, pos_z, size_x, size_z, dx, dz) is None <==> (forall|x: int, z: int|
            ((dx < x - pos_x < size_x && 0 <= z - pos_z < size_z) || (x - pos_x == dx && dx < size_x && dz <= z
                - pos_z < size_z)) ==> #[trigger] cell_fault(tiles, structures, x, z) is None),
    decreases size_x - dx, size_z - dz,
{
    if dx >= size_x {
    } else if dz >= size_z {
        lemma_scan_none(tiles, structures, pos_x, pos_z, size_x, size_z, dx + 1, 0);
    } else {
        match cell_fault(tiles, structures, pos_x + dx, pos_z + dz) {
            Some(f) => {},
            None => {
                lemma_scan_none(tiles, structures, pos_x, pos_z, size_x, size_z, dx, dz + 1);
            },
        }
    }
}

/// The whole scan finds no fault exactly when no cell of the footprint has one.
proof fn lemma_scan_footprint_none(
    tiles: Seq<(GridPosition, TilePreset)>,
    structures: Seq<(GridPosition, (u32, u32))>,
    pos_x: i32,
    pos_z: i32,
    size_x: u32,
    size_z: u32,
)
    ensures
        scan_fault(tiles, structures, pos_x as int, pos_z as int, size_x as int, size_z as int, 0, 0) is None <==> (
        forall|x: int, z: int|
            in_footprint(pos_x, pos_z, size_x, size_z, x, z) ==> #[trigger] cell_fault(tiles, structures, x, z) is None),
{
    lemma_scan_none(tiles, structures, pos_x as int, pos_z as int, size_x as int, size_z as int, 0, 0);
    if scan_fault(tiles, structures, pos_x as int, pos_z as int, size_x as int, size_z as int, 0, 0) is None {
        assert forall|x: int, z: int| in_footprint(pos_x, pos_z, size_x, size_z, x, z) implies #[trigger] cell_fault(
            tiles,
            structures,
            x,
            z,
        ) is None by {
            if x - pos_x == 0 {
            } else {
            }
        }
    }
}

/// The answer a fault gives.
pub open spec fn fault_result(f: Option<CellFault>) -> Result<(), &'static str> {
    match f {
        None => Ok(()),
        Some(CellFault::NoTile) => Err("No tile at position"),
        Some(CellFault::NotBuildable) => Err("Tile is not buildable"),
        Some(CellFault::Overlap) => Err("Overlaps existing structure"),
    }
}

/// Whether some structure's footprint covers the cell.
fn cell_covered(structures: &[(GridPosition, (u32, u32))], x: i32, z: i32) -> (r: bool)
    requires
        structures_fit(structures@),
    ensures
        r == covered(structures@, x as int, z as int),
{
    let n = structures.len();
    let mut i: usize = 0;
    while i < n
        invariant
            n == structures@.len(),
            structures_fit(structures@),
            0 <= i <= n,
            forall|j: int|
                0 <= j < i ==> !((#[trigger] structures@[j]).0.x <= x < structures@[j].0.x + structures@[j].1.0
                    && structures@[j].0.z <= z < structures@[j].0.z + structures@[j].1.1),
        decreases n - i,
    {
        let (sp, size) = structures[i];
        proof {
            assert(structures@[i as int].1.0 <= i32::MAX);
        }
        if x >= sp.x && x < sp.x + size.0 as i32 && z >= sp.z && z < sp.z + size.1 as i32 {
            proof {
                assert(structures@[i as int].0.x <= x < structures@[i as int].0.x + structures@[i as int].1.0);
            }
            return true;
        }
        i = i + 1;
    }
    false
}

/// Buildability of the first tile at `(x, z)`, if any.
fn first_tile_buildable(tiles: &[(GridPosition, TilePreset)], x: i32, z: i32) -> (r: Option<bool>)
    ensures
        r == first_tile_from(tiles@, 0, x as int, z as int),
{
    let n = tiles.len();
    let mut k: usize = 0;
    while k < n
        invariant
            n == tiles@.len(),
            0 <= k <= n,
            first_tile_from(tiles@, 0, x as int, z as int) == first_tile_from(tiles@, k as int, x as int, z as int),
        decreases n - k,
    {
        if tiles[k].0.x == x && tiles[k].0.z == z {
            return Some(tiles[k].1.buildable);
        }
        k = k + 1;
    }
    None
}

/// The fault of one cell.
fn check_cell(
    tiles: &[(GridPosition, TilePreset)],
    structures: &[(GridPosition, (u32, u32))],
    x: i32,
    z: i32,
) -> (r: Option<CellFault>)
    requires
        structures_fit(structures@),
    ensures
        r == cell_fault(tiles@, structures@, x as int, z as int),
{
    match first_tile_buildable(tiles, x, z) {
        None => Some(CellFault::NoTile),
        Some(false) => Some(CellFault::NotBuildable),
        Some(true) => if cell_covered(structures, x, z) {
            Some(CellFault::Overlap)
        } else {
            None
        },
    }
}

/// The first fault of the footprint, column by column.
fn scan_footprint(
    tiles: &[(GridPosition, TilePreset)],
    structures: &[(GridPosition, (u32, u32))],
    pos_x: i32,
    pos_z: i32,
    size_x: u32,
    size_z: u32,
) -> (r: Option<CellFault>)
    requires
        footprint_fits(pos_x, pos_z, size_x, size_z),
        structures_fit(structures@),
    ensures
        r == scan_fault(tiles@, structures@, pos_x as int, pos_z as int, size_x as int, size_z as int, 0, 0),
{
    let sx = size_x as i32;
    let sz = size_z as i32;
    let mut dx: i32 = 0;
    while dx < sx
        invariant
            footprint_fits(pos_x, pos_z, size_x, size_z),
            structures_fit(structures@),
            sx == size_x,
            sz == size_z,
            0 <= dx <= sx,
            scan_fault(tiles@, structures@, pos_x as int, pos_z as int, size_x as int, size_z as int, 0, 0)
                == scan_fault(tiles@, structures@, pos_x as int, pos_z as int, size_x as int, size_z as int, dx as int, 0),
        decreases sx - dx,
    {
        let mut dz: i32 = 0;
        while dz < sz
            invariant
                footprint_fits(pos_x, pos_z, size_x, size_z),
                structures_fit(structures@),
                sx == size_x,
                sz == size_z,
                0 <= dx < sx,
                0 <= dz <= sz,
                scan_fault(tiles@, structures@, pos_x as int, pos_z as int, size_x as int, size_z as int, 0, 0)
                    == scan_fault(
                    tiles@,
                    structures@,
                    pos_x as int,
                    pos_z as int,
                    size_x as int,
                    size_z as int,
                    dx as int,
                    dz as int,
                ),
            decreases sz - dz,
        {
            let f = check_cell(tiles, structures, pos_x + dx, pos_z + dz);
            if f.is_some() {
                return f;
            }
            dz = dz + 1;
        }
        dx = dx + 1;
    }
    None
}

/// Plate state of the first patch at `(x, z)` from position `k` of the list on.
pub open spec fn first_patch_from(patches: Seq<(GridPosition, SpaceCrystalPatch)>, k: int, x: int, z: int) -> Option<
    bool,
>
    decreases patches.len() - k,
{
    if k < 0 || k >= patches.len() {
        None
    } else if patches[k].0.x == x && patches[k].0.z == z {
        Some(patches[k].1.has_plate)
    } else {
        first_patch_from(patches, k + 1, x, z)
    }
}

/// Some cell of the footprint is in the build area.
pub open spec fn footprint_in_area(area: Set<(i32, i32)>, pos_x: i32, pos_z: i32, size_x: u32, size_z: u32) -> bool {
    exists|x: i32, z: i32| in_footprint(pos_x, pos_z, size_x, size_z, x as int, z as int) && #[trigger] area.contains((x, z))
}

/// What a GDO building placement check answers (see `can_place_building`).
pub open spec fn gdo_placement(
    pos_x: i32,
    pos_z: i32,
    size_x: u32,
    size_z: u32,
    object_type: ObjectEnum,
    area: Set<(i32, i32)>,
    tiles: Seq<(GridPosition, TilePreset)>,
    structures: Seq<(GridPosition, (u32, u32))>,
    patches: Seq<(GridPosition, SpaceCrystalPatch)>,
    fog_map: FogOfWarMap,
    player_id: u8,
) -> Result<(), &'static str> {
    if !footprint_in_area(area, pos_x, pos_z, size_x, size_z) {
        Err("No cells within build area")
    } else if !footprint_visible(fog_map, player_id, pos_x, pos_z, size_x, size_z) {
        Err("Tile not visible")
    } else if object_type == ObjectEnum::ExtractionPlate {
        match first_patch_from(patches, 0, pos_x as int, pos_z as int) {
            None => Err("No Space Crystal Patch at this location"),
            Some(true) => Err("Patch already has a plate"),
            Some(false) => Ok(()),
        }
    } else {
        fault_result(scan_fault(tiles, structures, pos_x as int, pos_z as int, size_x as int, size_z as int, 0, 0))
    }
}

/// Check a GDO building placement: some cell of the footprint in the build
/// area, every cell visible to the player; then an Extraction Plate needs a
/// patch without a plate, any other building buildable tiles and no
/// structure in the way on every cell. Structures are given by origin and
/// footprint size.
pub fn can_place_building(
    pos_x: i32,
    pos_z: i32,
    size_x: u32,
    size_z: u32,
    object_type: ObjectEnum,
    build_area: &GdoBuildArea,
    tiles: &[(GridPosition, TilePreset)],
    structures: &[(GridPosition, (u32, u32))],
    patches: &[(GridPosition, SpaceCrystalPatch)],
    fog_map: &FogOfWarMap,
    player_id: u8,
) -> (r: Result<(), &'static str>)
    requires
        footprint_fits(pos_x, pos_z, size_x, size_z),
        structures_fit(structures@),
        fog_map.wf(),
    ensures
        !footprint_in_area(build_area.cells@, pos_x, pos_z, size_x, size_z) ==> r == Err::<(), &'static str>(
            "No cells within build area",
        ),
        footprint_in_area(build_area.cells@, pos_x, pos_z, size_x, size_z) && !footprint_visible(
            *fog_map,
            player_id,
            pos_x,
            pos_z,
            size_x,
            size_z,
        ) ==> r == Err::<(), &'static str>("Tile not visible"),
        footprint_in_area(build_area.cells@, pos_x, pos_z, size_x, size_z) && footprint_visible(
            *fog_map,
            player_id,
            pos_x,
            pos_z,
            size_x,
            size_z,
        ) ==> r == if object_type == ObjectEnum::ExtractionPlate {
            match first_patch_from(patches@, 0, pos_x as int, pos_z as int) {
                None => Err::<(), &'static str>("No Space Crystal Patch at this location"),
                Some(true) => Err::<(), &'static str>("Patch already has a plate"),
                Some(false) => Ok::<(), &'static str>(()),
            }
        } else {
            fault_result(scan_fault(tiles@, structures@, pos_x as int, pos_z as int, size_x as int, size_z as int, 0, 0))
        },
        r == gdo_placement(
            pos_x,
            pos_z,
            size_x,
            size_z,
            object_type,
            build_area.cells@,
            tiles@,
            structures@,
            patches@,
            *fog_map,
            player_id,
        ),
{
    if !build_area.overlaps_footprint(pos_x, pos_z, size_x, size_z) {
        return Err("No cells within build area");
    }
    if !footprint_is_visible(fog_map, player_id, pos_x, pos_z, size_x, size_z) {
        return Err("Tile not visible");
    }
    if object_type == ObjectEnum::ExtractionPlate {
        let n = patches.len();
        let mut k: usize = 0;
        while k < n
            invariant
                n == patches@.len(),
                0 <= k <= n,
                object_type == ObjectEnum::ExtractionPlate,
                footprint_in_area(build_area.cells@, pos_x, pos_z, size_x, size_z),
                footprint_visible(*fog_map, player_id, pos_x, pos_z, size_x, size_z),
                first_patch_from(patches@, 0, pos_x as int, pos_z as int) == first_patch_from(
                    patches@,
                    k as int,
                    pos_x as int,
                    pos_z as int,
                ),
            decreases n - k,
        {
            if patches[k].0.x == pos_x && patches[k].0.z == pos_z {
                if patches[k].1.has_plate {
                    return Err("Patch already has a plate");
                }
                return Ok(());
            }
            k = k + 1;
        }
        return Err("No Space Crystal Patch at this location");
    }
    match scan_footprint(tiles, structures, pos_x, pos_z, size_x, size_z) {
        None => Ok(()),
        Some(CellFault::NoTile) => Err("No tile at position"),
        Some(CellFault::NotBuildable) => Err("Tile is not buildable"),
        Some(CellFault::Overlap) => Err("Overlaps existing structure"),
    }
}

/// Check a structure placement by a worker: like a GDO building, but with no
/// build area and no visibility requirement.
pub fn can_worker_place_structure(
    pos_x: i32,
    pos_z: i32,
    size_x: u32,
    size_z: u32,
    tiles: &[(GridPosition, TilePreset)],
    structures: &[(GridPosition, (u32, u32))],
) -> (r: Result<(), &'static str>)
    requires
        footprint_fits(pos_x, pos_z, size_x, size_z),
        structures_fit(structures@),
    ensures
        r == fault_result(
            scan_fault(tiles@, structures@, pos_x as int, pos_z as int, size_x as int, size_z as int, 0, 0),
        ),
        r is Ok <==> forall|x: int, z: int|
            in_footprint(pos_x, pos_z, size_x, size_z, x, z) ==> #[trigger] cell_fault(tiles@, structures@, x, z) is None,
{
    proof {
        lemma_scan_footprint_none(tiles@, structures@, pos_x, pos_z, size_x, size_z);
    }
    match scan_footprint(tiles, structures, pos_x, pos_z, size_x, size_z) {
        None => Ok(()),
        Some(CellFault::NoTile) => Err("No tile at position"),
        Some(CellFault::NotBuildable) => Err("Tile is not buildable"),
        Some(CellFault::Overlap) => Err("Overlaps existing structure"),
    }
}

/// Whether any structure's full footprint covers a cell of the given footprint.
pub fn has_structure_overlap(
    pos_x: i32,
    pos_z: i32,
    size_x: u32,
    size_z: u32,
    structures: &[(GridPosition, (u32, u32))],
) -> (r: bool)
    requires
        footprint_fits(pos_x, pos_z, size_x, size_z),
        structures_fit(structures@),
    ensures
        r == exists|x: i32, z: i32|
            in_footprint(pos_x, pos_z, size_x, size_z, x as int, z as int) && #[trigger] covered(
                structures@,
                x as int,
                z as int,
            ),
{
    let sx = size_x as i32;
    let sz = size_z as i32;
    let mut dx: i32 = 0;
    while dx < sx
        invariant
            footprint_fits(pos_x, pos_z, size_x, size_z),
            structures_fit(structures@),
            sx == size_x,
            sz == size_z,
            0 <= dx <= sx,
            forall|x: i32, z: i32|
                pos_x <= x < pos_x + dx && pos_z <= z < pos_z + size_z ==> !#[trigger] covered(
                    structures@,
                    x as int,
                    z as int,
                ),
        decreases sx - dx,
    {
        let mut dz: i32 = 0;
        while dz < sz
            invariant
                footprint_fits(pos_x, pos_z, size_x, size_z),
                structures_fit(structures@),
                sx == size_x,
                sz == size_z,
                0 <= dx < sx,
                0 <= dz <= sz,
                forall|x: i32, z: i32|
                    pos_x <= x < pos_x + dx && pos_z <= z < pos_z + size_z ==> !#[trigger] covered(
                        structures@,
                        x as int,
                        z as int,
                    ),
                forall|z: i32| pos_z <= z < pos_z + dz ==> !#[trigger] covered(structures@, pos_x + dx, z as int),
            decreases sz - dz,
        {
            if cell_covered(structures, pos_x + dx, pos_z + dz) {
                proof {
                    let x = (pos_x + dx) as i32;
                    let z = (pos_z + dz) as i32;
                    assert(in_footprint(pos_x, pos_z, size_x, size_z, x as int, z as int));
                    assert(covered(structures@, x as int, z as int));
                }
                return true;
            }
            dz = dz + 1;
        }
        proof {
            assert forall|x: i32, z: i32|
                pos_x <= x < pos_x + dx + 1 && pos_z <= z < pos_z + size_z implies !#[trigger] covered(
                    structures@,
                    x as int,
                    z as int,
                ) by {
                if x == pos_x + dx {
                    assert(!covered(structures@, pos_x + dx, z as int));
                }
            }
        }
        dx = dx + 1;
    }
    false
}

} // verus!
