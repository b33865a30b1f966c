use space_crystals::fog::{FogOfWarMap, VisibilityStateEnum};
use space_crystals::objects::StructureRotation;
use space_crystals::placement::{
    can_place_expansion, can_worker_place_structure, classify_selection_tier, footprint_is_visible,
    rotated_building_size, spawn_side_offset, vision_center, SelectionTier,
};
use space_crystals::structures::{TunnelArea, TunnelTier};
use space_crystals::world::{GridPosition, TilePreset, TilePresetEnum};

#[test]
fn selection_tier_own_unit() {
    assert_eq!(classify_selection_tier(true, false, true, false), SelectionTier::OwnUnits);
}

#[test]
fn selection_tier_own_structure() {
    assert_eq!(classify_selection_tier(true, false, false, true), SelectionTier::OwnStructures);
}

#[test]
fn selection_tier_enemy_unit() {
    assert_eq!(classify_selection_tier(false, false, true, false), SelectionTier::EnemyUnits);
}

#[test]
fn selection_tier_enemy_structure() {
    assert_eq!(classify_selection_tier(false, false, false, true), SelectionTier::EnemyStructures);
}

#[test]
fn selection_tier_neutral() {
    assert_eq!(classify_selection_tier(false, true, false, false), SelectionTier::Neutrals);
}

#[test]
fn selection_tier_neutral_with_no_markers() {
    assert_eq!(classify_selection_tier(false, true, true, false), SelectionTier::Neutrals);
}

#[test]
fn selection_tier_owned_entity_no_markers_is_own_structure_fallthrough() {
    assert_eq!(classify_selection_tier(true, false, false, false), SelectionTier::Neutrals);
}

#[test]
fn can_place_expansion_valid_within_area() {
    let area = TunnelArea::new(10, 10, &TunnelTier::Tier1);
    let result = can_place_expansion(10, 10, 2, 2, &area, &[]);
    assert!(result.is_ok());
}

#[test]
fn can_place_expansion_outside_area() {
    let area = TunnelArea::new(10, 10, &TunnelTier::Tier1);
    let result = can_place_expansion(50, 50, 2, 2, &area, &[]);
    assert!(result.is_err());
    assert_eq!(result.unwrap_err(), "Expansion does not fit within Tunnel Area");
}

#[test]
fn can_place_expansion_overlaps_existing() {
    let area = TunnelArea::new(10, 10, &TunnelTier::Tier1);
    let existing = vec![(10, 10), (11, 10), (10, 11), (11, 11)];
    let result = can_place_expansion(10, 10, 2, 2, &area, &existing);
    assert!(result.is_err());
    assert_eq!(result.unwrap_err(), "Overlaps existing expansion");
}

#[test]
fn can_place_expansion_adjacent_to_existing_ok() {
    let area = TunnelArea::new(10, 10, &TunnelTier::Tier1);
    let existing = vec![(10, 10), (11, 10)];
    let result = can_place_expansion(12, 10, 2, 2, &area, &existing);
    assert!(result.is_ok());
}

#[test]
fn can_place_expansion_partial_outside_area() {
    let area = TunnelArea::new(10, 10, &TunnelTier::Tier1);
    let result = can_place_expansion(16, 16, 2, 2, &area, &[]);
    assert!(result.is_err());
}

#[test]
fn vision_center_no_object_returns_grid_pos() {
    let (cx, cz) = vision_center(30, 30, None);
    assert_eq!(cx, 30);
    assert_eq!(cz, 30);
}

#[test]
fn vision_center_1x1_unit_no_offset() {
    let (cx, cz) = vision_center(15, 20, Some((1, 1)));
    assert_eq!(cx, 15);
    assert_eq!(cz, 20);
}

#[test]
fn vision_center_4x4_structure_offset_by_2() {
    let (cx, cz) = vision_center(30, 30, Some((4, 4)));
    assert_eq!(cx, 32);
    assert_eq!(cz, 32);
}

#[test]
fn vision_center_2x2_structure_offset_by_1() {
    let (cx, cz) = vision_center(10, 10, Some((2, 2)));
    assert_eq!(cx, 11);
    assert_eq!(cz, 11);
}

#[test]
fn vision_center_2x3_structure_asymmetric() {
    let (cx, cz) = vision_center(5, 5, Some((2, 3)));
    assert_eq!(cx, 6);
    assert_eq!(cz, 6);
}

#[test]
fn vision_center_3x3_structure_offset_by_1() {
    let (cx, cz) = vision_center(20, 20, Some((3, 3)));
    assert_eq!(cx, 21);
    assert_eq!(cz, 21);
}

#[test]
fn vision_center_at_origin() {
    let (cx, cz) = vision_center(0, 0, Some((4, 4)));
    assert_eq!(cx, 2);
    assert_eq!(cz, 2);
}

#[test]
fn vision_center_negative_grid_pos() {
    let (cx, cz) = vision_center(-5, -5, Some((4, 4)));
    assert_eq!(cx, -3);
    assert_eq!(cz, -3);
}

fn make_fog_map_all_visible(width: u32, height: u32, player_id: u8) -> FogOfWarMap {
    let mut fog = FogOfWarMap::new(width, height);
    for x in 0..width as i32 {
        for z in 0..height as i32 {
            fog.set(player_id, x, z, VisibilityStateEnum::Visible);
        }
    }
    fog
}

#[test]
fn footprint_visible_all_tiles_visible() {
    let fog = make_fog_map_all_visible(64, 64, 0);
    assert!(footprint_is_visible(&fog, 0, 10, 10, 2, 2));
}

#[test]
fn footprint_visible_1x1_visible() {
    let fog = make_fog_map_all_visible(64, 64, 0);
    assert!(footprint_is_visible(&fog, 0, 30, 30, 1, 1));
}

#[test]
fn footprint_not_visible_all_unexplored() {
    let fog = FogOfWarMap::new(64, 64);
    assert!(!footprint_is_visible(&fog, 0, 10, 10, 2, 2));
}

#[test]
fn footprint_not_visible_one_tile_explored() {
    let mut fog = make_fog_map_all_visible(64, 64, 0);
    fog.set(0, 11, 10, VisibilityStateEnum::Explored);
    assert!(!footprint_is_visible(&fog, 0, 10, 10, 2, 2));
}

#[test]
fn footprint_not_visible_one_tile_unexplored() {
    let mut fog = make_fog_map_all_visible(64, 64, 0);
    fog.set(0, 10, 11, VisibilityStateEnum::Unexplored);
    assert!(!footprint_is_visible(&fog, 0, 10, 10, 2, 2));
}

#[test]
fn footprint_not_visible_wrong_player() {
    let fog = make_fog_map_all_visible(64, 64, 0);
    assert!(!footprint_is_visible(&fog, 1, 10, 10, 2, 2));
}

#[test]
fn footprint_visible_4x4_all_visible() {
    let fog = make_fog_map_all_visible(64, 64, 0);
    assert!(footprint_is_visible(&fog, 0, 20, 20, 4, 4));
}

#[test]
fn footprint_not_visible_4x4_corner_explored() {
    let mut fog = make_fog_map_all_visible(64, 64, 0);
    fog.set(0, 23, 23, VisibilityStateEnum::Explored);
    assert!(!footprint_is_visible(&fog, 0, 20, 20, 4, 4));
}

#[test]
fn footprint_visible_at_map_edge() {
    let fog = make_fog_map_all_visible(64, 64, 0);
    assert!(footprint_is_visible(&fog, 0, 62, 62, 2, 2));
}

#[test]
fn footprint_not_visible_out_of_bounds() {
    let fog = make_fog_map_all_visible(64, 64, 0);
    assert!(!footprint_is_visible(&fog, 0, 63, 63, 2, 2));
}

#[test]
fn footprint_not_visible_negative_coords() {
    let fog = make_fog_map_all_visible(64, 64, 0);
    assert!(!footprint_is_visible(&fog, 0, -1, -1, 1, 1));
}

#[test]
fn footprint_visible_different_player() {
    let mut fog = FogOfWarMap::new(64, 64);
    for x in 0..64_i32 {
        for z in 0..64_i32 {
            fog.set(2, x, z, VisibilityStateEnum::Visible);
        }
    }
    assert!(footprint_is_visible(&fog, 2, 10, 10, 3, 3));
    assert!(!footprint_is_visible(&fog, 0, 10, 10, 3, 3));
}

fn buildable_tiles(positions: &[(i32, i32)]) -> Vec<(GridPosition, TilePreset)> {
    positions
        .iter()
        .map(|&(x, z)| {
            (
                GridPosition { x, z },
                TilePreset {
                    value: TilePresetEnum::Plane,
                    name: "Plane".to_string(),
                    buildable: true,
                    traversible: true,
                    rugged: false,
                    drillable: false,
                    recruitable: false,
                },
            )
        })
        .collect()
}

fn non_buildable_tile(x: i32, z: i32) -> (GridPosition, TilePreset) {
    (
        GridPosition { x, z },
        TilePreset {
            value: TilePresetEnum::Mountain,
            name: "Mountain".to_string(),
            buildable: false,
            traversible: false,
            rugged: false,
            drillable: false,
            recruitable: false,
        },
    )
}

/// A one-cell structure (an Extraction Plate) at the cell.
fn structure_at(x: i32, z: i32) -> (GridPosition, (u32, u32)) {
    (GridPosition { x, z }, (1, 1))
}

/// A Tunnel (four by four) at the cell.
fn tunnel_at(x: i32, z: i32) -> (GridPosition, (u32, u32)) {
    (GridPosition { x, z }, (4, 4))
}

#[test]
fn worker_place_valid_on_buildable_tiles() {
    let tiles = buildable_tiles(&[(10, 10), (11, 10), (10, 11), (11, 11)]);
    let result = can_worker_place_structure(10, 10, 2, 2, &tiles, &[]);
    assert!(result.is_ok());
}

#[test]
fn worker_place_fails_on_non_buildable_tile() {
    let mut tiles = buildable_tiles(&[(10, 10), (11, 10), (10, 11)]);
    tiles.push(non_buildable_tile(11, 11));
    let result = can_worker_place_structure(10, 10, 2, 2, &tiles, &[]);
    assert!(result.is_err());
    assert_eq!(result.unwrap_err(), "Tile is not buildable");
}

#[test]
fn worker_place_fails_on_missing_tile() {
    let tiles = buildable_tiles(&[(10, 10), (11, 10), (10, 11)]);
    let result = can_worker_place_structure(10, 10, 2, 2, &tiles, &[]);
    assert!(result.is_err());
    assert_eq!(result.unwrap_err(), "No tile at position");
}

#[test]
fn worker_place_fails_on_structure_overlap() {
    let tiles = buildable_tiles(&[(10, 10), (11, 10), (10, 11), (11, 11)]);
    let structures = vec![structure_at(11, 11)];
    let result = can_worker_place_structure(10, 10, 2, 2, &tiles, &structures);
    assert!(result.is_err());
    assert_eq!(result.unwrap_err(), "Overlaps existing structure");
}

#[test]
fn worker_place_valid_1x1_on_single_tile() {
    let tiles = buildable_tiles(&[(5, 5)]);
    let result = can_worker_place_structure(5, 5, 1, 1, &tiles, &[]);
    assert!(result.is_ok());
}

#[test]
fn worker_place_no_visibility_check() {
    let tiles = buildable_tiles(&[(20, 20)]);
    let result = can_worker_place_structure(20, 20, 1, 1, &tiles, &[]);
    assert!(result.is_ok(), "Worker placement should not require visibility");
}

#[test]
fn worker_place_no_build_area_check() {
    let tiles = buildable_tiles(&[(30, 30)]);
    let result = can_worker_place_structure(30, 30, 1, 1, &tiles, &[]);
    assert!(result.is_ok(), "Worker placement should not require build area");
}

#[test]
fn worker_place_fails_on_multi_cell_structure_overlap() {
    let mut cells = Vec::new();
    for x in 10..15 {
        for z in 10..15 {
            cells.push((x, z));
        }
    }
    let tiles = buildable_tiles(&cells);
    let structures = vec![tunnel_at(10, 10)];
    let result = can_worker_place_structure(12, 12, 2, 2, &tiles, &structures);
    assert!(result.is_err(), "Should detect overlap with Tunnel's full 4x4 footprint");
    assert_eq!(result.unwrap_err(), "Overlaps existing structure");
}

#[test]
fn worker_place_succeeds_adjacent_to_multi_cell_structure() {
    let mut cells = Vec::new();
    for x in 10..16 {
        for z in 10..16 {
            cells.push((x, z));
        }
    }
    let tiles = buildable_tiles(&cells);
    let structures = vec![tunnel_at(10, 10)];
    let result = can_worker_place_structure(14, 10, 2, 2, &tiles, &structures);
    assert!(result.is_ok(), "Should succeed when adjacent but not overlapping");
}

// Barracks: 3 by 2, sides A B A C (north, east, south, west) before rotation.
const BARRACKS_R0: [char; 4] = ['A', 'B', 'A', 'C'];
const BARRACKS_R90: [char; 4] = ['C', 'A', 'B', 'A'];
const BARRACKS_R180: [char; 4] = ['A', 'C', 'A', 'B'];
const BARRACKS_R270: [char; 4] = ['B', 'A', 'C', 'A'];
const ALL_A: [char; 4] = ['A', 'A', 'A', 'A'];

#[test]
fn barracks_r0_b_side_is_south() {
    let (dx, dz) = spawn_side_offset(3, 2, StructureRotation::R0, BARRACKS_R0);
    assert_eq!(dx, 3);
    assert_eq!(dz, 1);
}

#[test]
fn barracks_r90_b_side_rotates() {
    let (dx, dz) = spawn_side_offset(3, 2, StructureRotation::R90, BARRACKS_R90);
    assert_eq!(dx, 1);
    assert_eq!(dz, 3);
}

#[test]
fn barracks_r180_b_side_rotates() {
    let (dx, dz) = spawn_side_offset(3, 2, StructureRotation::R180, BARRACKS_R180);
    assert_eq!(dx, -1);
    assert_eq!(dz, 1);
}

#[test]
fn barracks_r270_b_side_rotates() {
    let (dx, dz) = spawn_side_offset(3, 2, StructureRotation::R270, BARRACKS_R270);
    assert_eq!(dx, 1);
    assert_eq!(dz, -1);
}

#[test]
fn supply_tower_r0_default_south() {
    let (dx, dz) = spawn_side_offset(3, 3, StructureRotation::R0, ALL_A);
    assert_eq!(dx, 1);
    assert_eq!(dz, 3);
}

#[test]
fn supply_tower_r90_default_east() {
    let (dx, dz) = spawn_side_offset(3, 3, StructureRotation::R90, ALL_A);
    assert_eq!(dx, 3);
    assert_eq!(dz, 1);
}

#[test]
fn supply_tower_r180_default_north() {
    let (dx, dz) = spawn_side_offset(3, 3, StructureRotation::R180, ALL_A);
    assert_eq!(dx, 1);
    assert_eq!(dz, -1);
}

#[test]
fn supply_tower_r270_default_west() {
    let (dx, dz) = spawn_side_offset(3, 3, StructureRotation::R270, ALL_A);
    assert_eq!(dx, -1);
    assert_eq!(dz, 1);
}

#[test]
fn barracks_flipped_horizontal_swaps_ew() {
    // Flipping east and west of A B A C gives A C A B.
    let (dx, dz) = spawn_side_offset(3, 2, StructureRotation::R0, ['A', 'C', 'A', 'B']);
    assert_eq!(dx, -1);
    assert_eq!(dz, 1);
}

#[test]
fn deployment_center_aaaa_r0_south() {
    let (dx, dz) = spawn_side_offset(4, 4, StructureRotation::R0, ALL_A);
    assert_eq!(dx, 2);
    assert_eq!(dz, 4);
}

#[test]
fn spawn_offset_outside_building_footprint() {
    let cases = [
        (StructureRotation::R0, BARRACKS_R0),
        (StructureRotation::R90, BARRACKS_R90),
        (StructureRotation::R180, BARRACKS_R180),
        (StructureRotation::R270, BARRACKS_R270),
    ];
    for (rot, labels) in cases {
        let (dx, dz) = spawn_side_offset(3, 2, rot, labels);
        let (w, h) = rotated_building_size(3, 2, &rot);
        let inside_x = dx >= 0 && dx < w as i32;
        let inside_z = dz >= 0 && dz < h as i32;
        assert!(!(inside_x && inside_z), "Spawn point ({dx}, {dz}) is inside footprint ({w}x{h}) for rotation {rot:?}");
    }
}
