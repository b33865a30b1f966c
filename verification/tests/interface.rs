use space_crystals::fog::FogOfWarMap;
use space_crystals::interface::{
    agent_build_tunnel_click, place_dc_structure, place_extraction_plate, place_tunnel_expansion,
    begin_tunnel_expansion, dc_placement_build_radius, enter_placement, exit_placement, overlay_kind,
    placement_building_type, placement_click, placement_is_valid, tunnel_expansion_cost, AgentMenuState,
    ObjectInterfaceState, OverlayKind, PlacementAction, PlacementState, StructureMenuState,
};
use space_crystals::objects::{ObjectEnum, StructureRotation};
use space_crystals::placement::GdoBuildArea;
use space_crystals::structures::{
    DeploymentCenterState, ExtractionFacilityState, TunnelArea, TunnelOperation, TunnelState, TunnelTier,
};
use space_crystals::world::{GridPosition, SpaceCrystalPatch, TilePreset, TilePresetEnum};

const DC_PLACING: ObjectInterfaceState = ObjectInterfaceState::StructureMenu(StructureMenuState::DcAwaitingPlacement);
const EF_PLACING: ObjectInterfaceState = ObjectInterfaceState::StructureMenu(StructureMenuState::EfAwaitingPlacement);
const TUNNEL_PLACING: ObjectInterfaceState =
    ObjectInterfaceState::StructureMenu(StructureMenuState::TunnelAwaitingPlacement);
const AGENT_PLACING: ObjectInterfaceState = ObjectInterfaceState::AgentMenu(AgentMenuState::AgentAwaitingPlacement);

#[test]
fn placement_modes() {
    assert!(DC_PLACING.is_placement_mode());
    assert!(EF_PLACING.is_placement_mode());
    assert!(TUNNEL_PLACING.is_placement_mode());
    assert!(AGENT_PLACING.is_placement_mode());
    assert!(!ObjectInterfaceState::Default.is_placement_mode());
    assert!(!ObjectInterfaceState::StructureMenu(StructureMenuState::DcIdle).is_placement_mode());
}

#[test]
fn placed_building_by_mode() {
    assert_eq!(placement_building_type(&DC_PLACING, Some(ObjectEnum::Barracks), None), Some(ObjectEnum::Barracks));
    assert_eq!(placement_building_type(&EF_PLACING, None, None), Some(ObjectEnum::ExtractionPlate));
    assert_eq!(
        placement_building_type(&TUNNEL_PLACING, None, Some(ObjectEnum::Headquarters)),
        Some(ObjectEnum::Headquarters)
    );
    assert_eq!(placement_building_type(&AGENT_PLACING, Some(ObjectEnum::Barracks), None), None);
}

#[test]
fn overlays_by_mode() {
    assert_eq!(overlay_kind(&DC_PLACING), OverlayKind::BuildArea);
    assert_eq!(overlay_kind(&EF_PLACING), OverlayKind::BuildArea);
    assert_eq!(overlay_kind(&TUNNEL_PLACING), OverlayKind::TunnelArea);
    assert_eq!(overlay_kind(&AGENT_PLACING), OverlayKind::NoOverlay);
}

#[test]
fn entering_and_leaving_placement() {
    let mut p = PlacementState::default();
    p.rotation = StructureRotation::R90;
    p.flip_horizontal = true;
    enter_placement(&mut p, ObjectEnum::PowerPlant, Some(7));
    assert_eq!(p.building_type, Some(ObjectEnum::PowerPlant));
    assert_eq!(p.source_entity, Some(7));
    assert_eq!(p.rotation, StructureRotation::R0);
    assert!(!p.flip_horizontal);
    p.rotation = StructureRotation::R180;
    exit_placement(&mut p);
    assert!(p.building_type.is_none());
    assert!(p.source_entity.is_none());
    assert_eq!(p.rotation, StructureRotation::R180, "orientation is remembered");
}

fn ready_placement() -> PlacementState {
    let mut p = PlacementState::default();
    enter_placement(&mut p, ObjectEnum::Barracks, Some(3));
    p.grid_pos = Some((20, 21));
    p.is_valid = true;
    p
}

#[test]
fn right_click_cancels_to_menu() {
    let p = ready_placement();
    assert_eq!(
        placement_click(&DC_PLACING, true, true, false, &p),
        PlacementAction::Cancel(ObjectInterfaceState::StructureMenu(StructureMenuState::DcReadyToPlace))
    );
    assert_eq!(
        placement_click(&AGENT_PLACING, true, false, false, &p),
        PlacementAction::Cancel(ObjectInterfaceState::AgentMenu(AgentMenuState::AgentDefault))
    );
}

#[test]
fn left_click_places_when_valid() {
    let p = ready_placement();
    assert_eq!(
        placement_click(&DC_PLACING, false, true, false, &p),
        PlacementAction::PlaceDcStructure {
            source: 3,
            object: ObjectEnum::Barracks,
            grid_x: 20,
            grid_z: 21,
            rotation: StructureRotation::R0,
            flip_horizontal: false,
            flip_vertical: false,
        }
    );
    assert_eq!(
        placement_click(&EF_PLACING, false, true, false, &p),
        PlacementAction::PlaceExtractionPlate { source: 3, grid_x: 20, grid_z: 21 }
    );
    assert_eq!(
        placement_click(&AGENT_PLACING, false, true, false, &p),
        PlacementAction::AgentBuildTunnel { source: 3, grid_x: 20, grid_z: 21 }
    );
}

#[test]
fn left_click_does_nothing_when_invalid_or_over_ui() {
    let mut p = ready_placement();
    assert_eq!(placement_click(&DC_PLACING, false, true, true, &p), PlacementAction::Nothing);
    p.is_valid = false;
    assert_eq!(placement_click(&DC_PLACING, false, true, false, &p), PlacementAction::Nothing);
    assert_eq!(placement_click(&ObjectInterfaceState::Default, true, true, false, &p), PlacementAction::Nothing);
}

#[test]
fn dc_structures_extend_build_radius() {
    assert_eq!(dc_placement_build_radius(ObjectEnum::PowerPlant), Some(1));
    assert_eq!(dc_placement_build_radius(ObjectEnum::Barracks), Some(2));
    assert_eq!(dc_placement_build_radius(ObjectEnum::ExtractionFacility), Some(2));
    assert_eq!(dc_placement_build_radius(ObjectEnum::SupplyTower), Some(1));
    assert_eq!(dc_placement_build_radius(ObjectEnum::Tunnel), None);
}

#[test]
fn tunnel_expansion_costs_and_start() {
    assert_eq!(tunnel_expansion_cost(ObjectEnum::Headquarters), 200);
    assert_eq!(tunnel_expansion_cost(ObjectEnum::Tunnel), 0);
    let mut tunnel = TunnelState::<u32>::default_tier1();
    let mut crystals = 150;
    assert!(!begin_tunnel_expansion(&mut tunnel, &mut crystals, ObjectEnum::Headquarters, 1, 2, StructureRotation::R0, false, false, 0));
    assert_eq!(crystals, 150);
    assert!(!tunnel.is_busy());
    crystals = 250;
    assert!(begin_tunnel_expansion(&mut tunnel, &mut crystals, ObjectEnum::Headquarters, 1, 2, StructureRotation::R90, true, false, 0));
    assert_eq!(crystals, 50);
    assert_eq!(
        tunnel.current_operation,
        Some(TunnelOperation::BuildingExpansion {
            object: ObjectEnum::Headquarters,
            progress: 0,
            grid_x: 1,
            grid_z: 2,
            rotation: StructureRotation::R90,
            flip_horizontal: true,
            flip_vertical: false,
        })
    );
}

fn plane(x: i32, z: i32) -> (GridPosition, TilePreset) {
    (
        GridPosition { x, z },
        TilePreset {
            value: TilePresetEnum::Plane,
            name: "Plane".to_string(),
            buildable: true,
            traversible: true,
            rugged: false,
            drillable: false,
            recruitable: false,
        },
    )
}

#[test]
fn placement_validity_by_mode() {
    let tiles = vec![plane(5, 5), plane(6, 5), plane(5, 6), plane(6, 6)];
    let fog = FogOfWarMap::new(64, 64);
    let area = GdoBuildArea::default();
    let tunnel = TunnelArea::new(10, 10, &TunnelTier::Tier1);
    assert!(placement_is_valid(&AGENT_PLACING, 5, 5, 2, 2, ObjectEnum::Tunnel, &area, &tiles, &[], &[], &fog, 0, None));
    assert!(!placement_is_valid(&DC_PLACING, 5, 5, 2, 2, ObjectEnum::PowerPlant, &area, &tiles, &[], &[], &fog, 0, None));
    assert!(placement_is_valid(&TUNNEL_PLACING, 10, 10, 2, 2, ObjectEnum::Headquarters, &area, &tiles, &[], &[], &fog, 0, Some(&tunnel)));
    assert!(!placement_is_valid(&TUNNEL_PLACING, 10, 10, 2, 2, ObjectEnum::Headquarters, &area, &tiles, &[], &[], &fog, 0, None));
    let hq = vec![(GridPosition { x: 11, z: 11 }, (2u32, 2u32))];
    assert!(!placement_is_valid(&TUNNEL_PLACING, 10, 10, 2, 2, ObjectEnum::Headquarters, &area, &tiles, &hq, &[], &fog, 0, Some(&tunnel)));
}

#[test]
fn placing_a_dc_structure_clears_it_and_grows_the_build_area() {
    let mut dc = DeploymentCenterState::<u32>::default();
    dc.ready_to_place = Some(ObjectEnum::Barracks);
    let mut area = GdoBuildArea::default();
    let next = place_dc_structure(&mut dc, &mut area, ObjectEnum::Barracks, 10, 10, 3, 2, StructureRotation::R90);
    assert_eq!(next, ObjectInterfaceState::StructureMenu(StructureMenuState::DcIdle));
    assert_eq!(dc.ready_to_place, None);
    // rotated 2x3 footprint at (10, 10) grown by 2: x in 8..=13, z in 8..=14
    assert_eq!(area.cells.len(), 6 * 7);
    assert!(area.cells.contains(&(8, 8)));
    assert!(area.cells.contains(&(13, 14)));
    assert!(!area.cells.contains(&(14, 14)));
}

#[test]
fn placing_an_unknown_dc_structure_leaves_the_build_area() {
    let mut dc = DeploymentCenterState::<u32>::default();
    dc.ready_to_place = Some(ObjectEnum::Tunnel);
    let mut area = GdoBuildArea::default();
    let next = place_dc_structure(&mut dc, &mut area, ObjectEnum::Tunnel, 10, 10, 4, 4, StructureRotation::R0);
    assert_eq!(next, ObjectInterfaceState::StructureMenu(StructureMenuState::DcIdle));
    assert_eq!(dc.ready_to_place, None);
    assert_eq!(area.cells.len(), 0);
}

#[test]
fn placing_a_plate_marks_the_patch() {
    let mut ef = ExtractionFacilityState::<u32>::default();
    ef.ready_to_place = true;
    let mut area = GdoBuildArea::default();
    let patch = SpaceCrystalPatch { remaining_amount: 100, initial_amount: 100, has_plate: false };
    let mut patches = vec![(GridPosition { x: 1, z: 1 }, patch), (GridPosition { x: 4, z: 5 }, patch)];
    let (next, idx) = place_extraction_plate(&mut ef, &mut area, &mut patches, 4, 5);
    assert_eq!(next, ObjectInterfaceState::StructureMenu(StructureMenuState::EfIdle));
    assert_eq!(idx, Some(1));
    assert!(!ef.ready_to_place);
    assert!(patches[1].1.has_plate);
    assert!(!patches[0].1.has_plate);
    assert_eq!(area.cells.len(), 1);
    assert!(area.cells.contains(&(4, 5)));

    ef.ready_to_place = true;
    let (next, idx) = place_extraction_plate(&mut ef, &mut area, &mut patches, 7, 7);
    assert_eq!(next, ObjectInterfaceState::StructureMenu(StructureMenuState::EfIdle));
    assert_eq!(idx, None, "no patch there: no plate");
    assert!(!ef.ready_to_place);
    assert_eq!(area.cells.len(), 1);
}

#[test]
fn tunnel_placement_returns_to_idle_whether_paid_or_not() {
    let mut tunnel = TunnelState::<u32>::default_tier1();
    let mut crystals = 150;
    let (next, started) =
        place_tunnel_expansion(&mut tunnel, &mut crystals, ObjectEnum::Headquarters, 3, 4, StructureRotation::R0, false, false, 0);
    assert_eq!(next, ObjectInterfaceState::StructureMenu(StructureMenuState::TunnelIdle));
    assert!(!started);
    assert_eq!(crystals, 150);
    crystals = 200;
    let (next, started) =
        place_tunnel_expansion(&mut tunnel, &mut crystals, ObjectEnum::Headquarters, 3, 4, StructureRotation::R0, false, false, 0);
    assert_eq!(next, ObjectInterfaceState::StructureMenu(StructureMenuState::TunnelIdle));
    assert!(started);
    assert_eq!(crystals, 0);
    assert!(tunnel.is_busy());
}

#[test]
fn agent_tunnel_order_refused_where_another_agent_builds() {
    let sites = [(2, 2), (5, 6)];
    assert_eq!(
        agent_build_tunnel_click(&sites, 5, 6),
        (ObjectInterfaceState::AgentMenu(AgentMenuState::AgentDefault), false)
    );
    assert_eq!(
        agent_build_tunnel_click(&sites, 5, 7),
        (ObjectInterfaceState::AgentMenu(AgentMenuState::AgentDefault), true)
    );
}
