use space_crystals::fog::{FogOfWarMap, VisibilityStateEnum};
use space_crystals::objects::{ObjectEnum, StructureRotation};
use space_crystals::placement::{
    can_place_building, expand_build_area, has_structure_overlap, rotated_building_size, GdoBuildArea,
};
use space_crystals::world::{GridPosition, SpaceCrystalPatch, TilePreset, TilePresetEnum};

fn plane(x: i32, z: i32) -> (GridPosition, TilePreset) {
    (
        GridPosition { x, z },
        TilePreset {
            value: TilePresetEnum::Plane,
            name: "Plane".to_string(),
            buildable: true,
            traversible: true,
            rugged: false,
            drillable: false,
            recruitable: false,
        },
    )
}

fn plane_block(x0: i32, z0: i32, w: i32, h: i32) -> Vec<(GridPosition, TilePreset)> {
    let mut v = Vec::new();
    for x in x0..x0 + w {
        for z in z0..z0 + h {
            v.push(plane(x, z));
        }
    }
    v
}

fn visible_fog(player: u8) -> FogOfWarMap {
    let mut fog = FogOfWarMap::new(64, 64);
    for x in 0..64 {
        for z in 0..64 {
            fog.set(player, x, z, VisibilityStateEnum::Visible);
        }
    }
    fog
}

fn dc_area() -> GdoBuildArea {
    let mut area = GdoBuildArea::default();
    expand_build_area(&mut area, 30, 30, 4, 4, 12);
    area
}

#[test]
fn deployment_center_build_area() {
    let area = dc_area();
    assert_eq!(area.cells.len(), 28 * 28);
    assert!(area.contains(18, 18));
    assert!(area.contains(45, 45));
    assert!(!area.contains(17, 30));
    assert!(!area.contains(30, 46));
}

#[test]
fn build_area_grows_and_keeps_old_cells() {
    let mut area = dc_area();
    expand_build_area(&mut area, 44, 30, 2, 2, 1);
    assert!(area.contains(46, 31));
    assert!(area.contains(18, 18));
    assert_eq!(area.cells.len(), 28 * 28 + 4);
}

#[test]
fn rotation_swaps_footprint() {
    assert_eq!(rotated_building_size(3, 2, &StructureRotation::R0), (3, 2));
    assert_eq!(rotated_building_size(3, 2, &StructureRotation::R90), (2, 3));
    assert_eq!(rotated_building_size(3, 2, &StructureRotation::R180), (3, 2));
    assert_eq!(rotated_building_size(3, 2, &StructureRotation::R270), (2, 3));
}

#[test]
fn structure_overlap_uses_whole_footprints() {
    let structures = vec![(GridPosition { x: 10, z: 10 }, (4, 4))];
    assert!(has_structure_overlap(13, 13, 1, 1, &structures));
    assert!(!has_structure_overlap(14, 10, 2, 2, &structures));
    assert!(has_structure_overlap(8, 8, 3, 3, &structures));
}

#[test]
fn building_placement_succeeds_on_clear_visible_ground() {
    let tiles = plane_block(20, 20, 4, 4);
    let r = can_place_building(20, 20, 2, 2, ObjectEnum::PowerPlant, &dc_area(), &tiles, &[], &[], &visible_fog(0), 0);
    assert_eq!(r, Ok(()));
}

#[test]
fn building_placement_errors_in_order() {
    let tiles = plane_block(20, 20, 4, 4);
    let fog = visible_fog(0);
    let area = dc_area();
    assert_eq!(
        can_place_building(2, 2, 2, 2, ObjectEnum::PowerPlant, &area, &tiles, &[], &[], &fog, 0),
        Err("No cells within build area")
    );
    assert_eq!(
        can_place_building(20, 20, 2, 2, ObjectEnum::PowerPlant, &area, &tiles, &[], &[], &fog, 1),
        Err("Tile not visible")
    );
    assert_eq!(
        can_place_building(22, 22, 3, 3, ObjectEnum::PowerPlant, &area, &tiles, &[], &[], &fog, 0),
        Err("No tile at position")
    );
    let mut rocky = tiles.clone();
    rocky[0].1.buildable = false;
    assert_eq!(
        can_place_building(20, 20, 2, 2, ObjectEnum::PowerPlant, &area, &rocky, &[], &[], &fog, 0),
        Err("Tile is not buildable")
    );
    let structures = vec![(GridPosition { x: 21, z: 21 }, (1, 1))];
    assert_eq!(
        can_place_building(20, 20, 2, 2, ObjectEnum::PowerPlant, &area, &tiles, &structures, &[], &fog, 0),
        Err("Overlaps existing structure")
    );
}

#[test]
fn extraction_plate_needs_a_free_patch() {
    let fog = visible_fog(0);
    let area = dc_area();
    let free = vec![(GridPosition { x: 34, z: 28 }, SpaceCrystalPatch { remaining_amount: 2500, initial_amount: 2500, has_plate: false })];
    let taken = vec![(GridPosition { x: 34, z: 28 }, SpaceCrystalPatch { remaining_amount: 2500, initial_amount: 2500, has_plate: true })];
    assert_eq!(can_place_building(34, 28, 1, 1, ObjectEnum::ExtractionPlate, &area, &[], &[], &free, &fog, 0), Ok(()));
    assert_eq!(
        can_place_building(34, 28, 1, 1, ObjectEnum::ExtractionPlate, &area, &[], &[], &taken, &fog, 0),
        Err("Patch already has a plate")
    );
    assert_eq!(
        can_place_building(33, 28, 1, 1, ObjectEnum::ExtractionPlate, &area, &[], &[], &free, &fog, 0),
        Err("No Space Crystal Patch at this location")
    );
}
