use space_crystals::occupancy::OccupancyMap;
use space_crystals::pathfinding::{find_path, find_path_air, find_path_for_domain};
use space_crystals::units::UnitBaseEnum;
use space_crystals::world::{GridPosition, TilePreset, TilePresetEnum};

fn open_tile() -> TilePreset {
    TilePreset {
        value: TilePresetEnum::Plane,
        name: "Open".to_string(),
        buildable: true,
        traversible: true,
        rugged: false,
        drillable: false,
        recruitable: false,
    }
}

fn tile_grid(width: i32, height: i32) -> Vec<(GridPosition, TilePreset)> {
    let mut tiles = Vec::new();
    for x in 0..width {
        for z in 0..height {
            tiles.push((GridPosition { x, z }, open_tile()));
        }
    }
    tiles
}

fn block_tile(tiles: &mut Vec<(GridPosition, TilePreset)>, bx: i32, bz: i32) {
    for (pos, preset) in tiles.iter_mut() {
        if pos.x == bx && pos.z == bz {
            preset.traversible = false;
        }
    }
}

fn gp(x: i32, z: i32) -> GridPosition {
    GridPosition { x, z }
}

#[test]
fn find_path_diagonal_straight_line() {
    let tiles = tile_grid(10, 10);
    let path = find_path(gp(0, 0), gp(3, 3), &tiles, &UnitBaseEnum::LightInfantry, 10, 10, &OccupancyMap::default(), (0, 0)).unwrap();
    assert_eq!(path.first().unwrap().x, 0);
    assert_eq!(path.first().unwrap().z, 0);
    assert_eq!(path.last().unwrap().x, 3);
    assert_eq!(path.last().unwrap().z, 3);
    assert_eq!(path.len(), 4);
    for i in 1..path.len() {
        let dx = (path[i].x - path[i - 1].x).abs();
        let dz = (path[i].z - path[i - 1].z).abs();
        assert_eq!(dx, 1);
        assert_eq!(dz, 1);
    }
}

#[test]
fn find_path_cardinal_straight_line() {
    let tiles = tile_grid(10, 10);
    let path = find_path(gp(0, 0), gp(5, 0), &tiles, &UnitBaseEnum::LightInfantry, 10, 10, &OccupancyMap::default(), (0, 0)).unwrap();
    assert_eq!(path.len(), 6);
    for node in &path {
        assert_eq!(node.z, 0);
    }
}

#[test]
fn find_path_no_corner_cutting() {
    let mut tiles = tile_grid(4, 4);
    block_tile(&mut tiles, 1, 1);
    let path = find_path(gp(0, 0), gp(2, 2), &tiles, &UnitBaseEnum::LightInfantry, 4, 4, &OccupancyMap::default(), (0, 0)).unwrap();
    assert!(!path.iter().any(|p| p.x == 1 && p.z == 1));
}

#[test]
fn find_path_corner_cutting_blocked_by_adjacent() {
    let mut tiles = tile_grid(4, 4);
    block_tile(&mut tiles, 1, 0);
    block_tile(&mut tiles, 0, 1);
    let path = find_path(gp(0, 0), gp(1, 1), &tiles, &UnitBaseEnum::LightInfantry, 4, 4, &OccupancyMap::default(), (0, 0));
    assert!(path.is_none(), "Should not find path through blocked corner");
}

#[test]
fn find_path_same_start_and_goal() {
    let tiles = tile_grid(5, 5);
    let path = find_path(gp(2, 2), gp(2, 2), &tiles, &UnitBaseEnum::LightInfantry, 5, 5, &OccupancyMap::default(), (2, 2)).unwrap();
    assert_eq!(path.len(), 1);
    assert_eq!(path[0].x, 2);
    assert_eq!(path[0].z, 2);
}

#[test]
fn find_path_mixed_diagonal_and_cardinal() {
    let tiles = tile_grid(10, 10);
    let path = find_path(gp(0, 0), gp(5, 3), &tiles, &UnitBaseEnum::LightInfantry, 10, 10, &OccupancyMap::default(), (0, 0)).unwrap();
    assert_eq!(path.first().unwrap().x, 0);
    assert_eq!(path.first().unwrap().z, 0);
    assert_eq!(path.last().unwrap().x, 5);
    assert_eq!(path.last().unwrap().z, 3);
    for i in 1..path.len() {
        let dx = (path[i].x - path[i - 1].x).abs();
        let dz = (path[i].z - path[i - 1].z).abs();
        assert!(dx <= 1 && dz <= 1);
    }
    assert_eq!(path.len(), 6);
    let diagonal_steps = (1..path.len())
        .filter(|&i| (path[i].x - path[i - 1].x).abs() == 1 && (path[i].z - path[i - 1].z).abs() == 1)
        .count();
    assert_eq!(diagonal_steps, 3);
    let cardinal_steps = (1..path.len())
        .filter(|&i| ((path[i].x - path[i - 1].x).abs() == 1) ^ ((path[i].z - path[i - 1].z).abs() == 1))
        .count();
    assert_eq!(cardinal_steps, 2);
}

#[test]
fn find_path_diagonal_preference_consistent() {
    let tiles = tile_grid(20, 20);
    let test_cases = vec![((0, 0), (7, 4)), ((0, 0), (4, 7)), ((2, 2), (10, 5)), ((0, 0), (6, 2))];
    for ((sx, sz), (gx, gz)) in &test_cases {
        let (sx, sz, gx, gz) = (*sx, *sz, *gx, *gz);
        let path = find_path(gp(sx, sz), gp(gx, gz), &tiles, &UnitBaseEnum::LightInfantry, 20, 20, &OccupancyMap::default(), (sx, sz)).unwrap();
        let dx_total = (gx - sx).unsigned_abs();
        let dz_total = (gz - sz).unsigned_abs();
        let expected_diag = dx_total.min(dz_total);
        let expected_card = dx_total.max(dz_total) - expected_diag;
        let expected_len = (expected_diag + expected_card + 1) as usize;
        assert_eq!(path.len(), expected_len);
        let mut direction_changes = 0;
        for i in 2..path.len() {
            let d1x = path[i - 1].x - path[i - 2].x;
            let d1z = path[i - 1].z - path[i - 2].z;
            let d2x = path[i].x - path[i - 1].x;
            let d2z = path[i].z - path[i - 1].z;
            if d1x != d2x || d1z != d2z {
                direction_changes += 1;
            }
        }
        assert!(direction_changes <= 1, "Path from ({},{}) to ({},{}) has {} direction changes", sx, sz, gx, gz, direction_changes);
    }
}

#[test]
fn find_path_avoids_occupied_tile() {
    let tiles = tile_grid(6, 3);
    let mut occupancy = OccupancyMap::default();
    occupancy.blocked_tiles.insert((2, 0));
    let path = find_path(gp(0, 0), gp(4, 0), &tiles, &UnitBaseEnum::LightInfantry, 6, 3, &occupancy, (0, 0)).unwrap();
    assert!(!path.iter().any(|p| p.x == 2 && p.z == 0));
    assert_eq!(path.last().unwrap().x, 4);
    assert_eq!(path.last().unwrap().z, 0);
}

#[test]
fn find_path_self_exclusion_allows_own_tile() {
    let tiles = tile_grid(5, 3);
    let mut occupancy = OccupancyMap::default();
    occupancy.blocked_tiles.insert((2, 0));
    let path = find_path(gp(2, 0), gp(4, 0), &tiles, &UnitBaseEnum::LightInfantry, 5, 3, &occupancy, (2, 0)).unwrap();
    assert_eq!(path.first().unwrap().x, 2);
    assert_eq!(path.last().unwrap().x, 4);
}

#[test]
fn find_path_goal_tile_allowed_even_if_occupied() {
    let tiles = tile_grid(5, 3);
    let mut occupancy = OccupancyMap::default();
    occupancy.blocked_tiles.insert((3, 0));
    let path = find_path(gp(0, 0), gp(3, 0), &tiles, &UnitBaseEnum::LightInfantry, 5, 3, &occupancy, (0, 0)).unwrap();
    assert_eq!(path.last().unwrap().x, 3);
    assert_eq!(path.last().unwrap().z, 0);
}

#[test]
fn find_path_fully_blocked_returns_none() {
    let tiles = tile_grid(5, 5);
    let mut occupancy = OccupancyMap::default();
    for dx in -1..=1 {
        for dz in -1..=1 {
            if dx == 0 && dz == 0 {
                continue;
            }
            occupancy.blocked_tiles.insert((2 + dx, 2 + dz));
        }
    }
    let path = find_path(gp(2, 2), gp(4, 4), &tiles, &UnitBaseEnum::LightInfantry, 5, 5, &occupancy, (2, 2));
    assert!(path.is_none());
}

#[test]
fn find_path_long_distance_64x64_grid() {
    let tiles = tile_grid(64, 64);
    let path = find_path(gp(0, 0), gp(63, 63), &tiles, &UnitBaseEnum::LightInfantry, 64, 64, &OccupancyMap::default(), (0, 0)).unwrap();
    assert_eq!(path.first().unwrap().x, 0);
    assert_eq!(path.first().unwrap().z, 0);
    assert_eq!(path.last().unwrap().x, 63);
    assert_eq!(path.last().unwrap().z, 63);
    assert_eq!(path.len(), 64);
}

#[test]
fn find_path_long_distance_cardinal_64x64() {
    let tiles = tile_grid(64, 64);
    let path = find_path(gp(0, 32), gp(63, 32), &tiles, &UnitBaseEnum::LightInfantry, 64, 64, &OccupancyMap::default(), (0, 32)).unwrap();
    assert_eq!(path.first().unwrap().x, 0);
    assert_eq!(path.last().unwrap().x, 63);
    assert_eq!(path.len(), 64);
}

#[test]
fn find_path_routes_around_blocked_column() {
    let mut tiles = tile_grid(6, 6);
    block_tile(&mut tiles, 3, 0);
    block_tile(&mut tiles, 3, 1);
    block_tile(&mut tiles, 3, 2);
    let path = find_path(gp(0, 0), gp(5, 0), &tiles, &UnitBaseEnum::LightInfantry, 6, 6, &OccupancyMap::default(), (0, 0)).unwrap();
    assert_eq!(path.first().unwrap().x, 0);
    assert_eq!(path.first().unwrap().z, 0);
    assert_eq!(path.last().unwrap().x, 5);
    assert_eq!(path.last().unwrap().z, 0);
    assert!(!path.iter().any(|p| p.x == 3 && p.z <= 2));
}

#[test]
fn find_path_long_distance_with_wall() {
    let mut tiles = tile_grid(20, 20);
    for z in 0..17 {
        block_tile(&mut tiles, 10, z);
    }
    let path = find_path(gp(0, 0), gp(19, 0), &tiles, &UnitBaseEnum::LightInfantry, 20, 20, &OccupancyMap::default(), (0, 0)).unwrap();
    assert_eq!(path.first().unwrap().x, 0);
    assert_eq!(path.first().unwrap().z, 0);
    assert_eq!(path.last().unwrap().x, 19);
    assert_eq!(path.last().unwrap().z, 0);
    assert!(!path.iter().any(|p| p.x == 10 && p.z < 17));
}

#[test]
fn find_path_air_ignores_occupied_tiles() {
    let tiles = tile_grid(10, 10);
    let mut occupancy = OccupancyMap::default();
    for z in 0..10 {
        occupancy.blocked_tiles.insert((5, z));
    }
    let ground_path = find_path(gp(0, 0), gp(9, 0), &tiles, &UnitBaseEnum::LightInfantry, 10, 10, &occupancy, (0, 0));
    assert!(ground_path.is_none(), "Ground path should be blocked by occupancy wall");
}

#[test]
fn find_path_air_passes_through_occupancy_wall() {
    let tiles = tile_grid(10, 10);
    let mut occupancy = OccupancyMap::default();
    for z in 0..10 {
        occupancy.blocked_tiles.insert((5, z));
    }
    let path = find_path_air(gp(0, 0), gp(9, 0), &tiles, &UnitBaseEnum::HoverCraft, 10, 10, &occupancy, (0, 0))
        .expect("Air path should succeed despite occupancy wall");
    assert_eq!(path.first().unwrap().x, 0);
    assert_eq!(path.last().unwrap().x, 9);
}

#[test]
fn find_path_for_domain_auto_selects_air_vs_ground() {
    let tiles = tile_grid(10, 10);
    let mut occupancy = OccupancyMap::default();
    for z in 0..10 {
        occupancy.blocked_tiles.insert((5, z));
    }
    let air_result = find_path_for_domain(gp(0, 0), gp(9, 0), &tiles, &UnitBaseEnum::HoverCraft, 10, 10, &occupancy, (0, 0));
    assert!(air_result.is_some(), "HoverCraft should fly over occupancy wall");
}

#[test]
fn find_path_for_domain_ground_unit_blocked() {
    let tiles = tile_grid(10, 10);
    let mut occupancy = OccupancyMap::default();
    for z in 0..10 {
        occupancy.blocked_tiles.insert((5, z));
    }
    let ground_result = find_path_for_domain(gp(0, 0), gp(9, 0), &tiles, &UnitBaseEnum::LightInfantry, 10, 10, &occupancy, (0, 0));
    assert!(ground_result.is_none(), "LightInfantry should be blocked by occupancy wall");
}

#[test]
fn find_path_air_ignores_impassable_terrain() {
    let mut tiles = tile_grid(10, 10);
    for z in 0..10 {
        block_tile(&mut tiles, 5, z);
    }
    let path = find_path_air(gp(0, 0), gp(9, 0), &tiles, &UnitBaseEnum::HoverCraft, 10, 10, &OccupancyMap::default(), (0, 0))
        .expect("Air units should fly over impassable terrain");
    assert!(path.len() >= 2);
    assert_eq!(path.first().unwrap().x, 0);
    assert_eq!(path.last().unwrap().x, 9);
    assert!(path.iter().any(|p| p.x == 5));
}

#[test]
fn find_path_ground_blocked_by_impassable_terrain() {
    let mut tiles = tile_grid(10, 10);
    for z in 0..10 {
        block_tile(&mut tiles, 5, z);
    }
    let ground_path = find_path(gp(0, 0), gp(9, 0), &tiles, &UnitBaseEnum::LightInfantry, 10, 10, &OccupancyMap::default(), (0, 0));
    assert!(ground_path.is_none());
}

#[test]
fn rugged_terrain_blocks_units_that_cannot_cross_it() {
    let mut tiles = tile_grid(3, 1);
    for (pos, preset) in tiles.iter_mut() {
        if pos.x == 1 {
            preset.rugged = true;
        }
    }
    let infantry = find_path(gp(0, 0), gp(2, 0), &tiles, &UnitBaseEnum::LightInfantry, 3, 1, &OccupancyMap::default(), (0, 0));
    assert_eq!(infantry.map(|p| p.len()), Some(3));
    let wheeled = find_path(gp(0, 0), gp(2, 0), &tiles, &UnitBaseEnum::WheeledVehicle, 3, 1, &OccupancyMap::default(), (0, 0));
    assert!(wheeled.is_none());
}

#[test]
fn empty_grid_only_reaches_the_start() {
    let tiles: Vec<(GridPosition, TilePreset)> = Vec::new();
    let same = find_path(gp(1, 1), gp(1, 1), &tiles, &UnitBaseEnum::LightInfantry, 0, 0, &OccupancyMap::default(), (1, 1));
    assert_eq!(same, Some(vec![gp(1, 1)]));
    let other = find_path(gp(1, 1), gp(2, 2), &tiles, &UnitBaseEnum::LightInfantry, 0, 0, &OccupancyMap::default(), (1, 1));
    assert!(other.is_none());
}

/// Cost of a path: a million per straight step, 1414214 per diagonal one.
fn cost_of(path: &[GridPosition]) -> u64 {
    path.windows(2)
        .map(|w| if w[0].x != w[1].x && w[0].z != w[1].z { 1_414_214 } else { 1_000_000 })
        .sum()
}

#[test]
fn returned_path_is_cheapest_around_a_wall() {
    // A wall at x = 3 from z = 0 to z = 5 forces a detour over z = 6.
    let mut tiles = Vec::new();
    for x in 0..8 {
        for z in 0..8 {
            let wall = x == 3 && z <= 5;
            tiles.push((
                GridPosition { x, z },
                TilePreset {
                    value: if wall { TilePresetEnum::Mountain } else { TilePresetEnum::Plane },
                    name: String::new(),
                    buildable: !wall,
                    traversible: !wall,
                    rugged: false,
                    drillable: false,
                    recruitable: false,
                },
            ));
        }
    }
    let occupancy = OccupancyMap::default();
    let path = find_path(
        GridPosition { x: 0, z: 0 },
        GridPosition { x: 6, z: 0 },
        &tiles,
        &UnitBaseEnum::LightInfantry,
        8,
        8,
        &occupancy,
        (0, 0),
    )
    .unwrap();
    // Up the wall diagonally as far as corners allow, across, and back down.
    assert_eq!(cost_of(&path), 2 * 1_000_000 + 4 * 1_414_214 + 4 * 1_000_000 + 0);
}
