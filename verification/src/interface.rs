//! The object interface (command panel) states, and the decisions the
//! placement mode makes on them: which building is placed, whether the ghost
//! position is valid, and what a click does.
use vstd::prelude::*;
use crate::fog::FogOfWarMap;
use crate::objects::{EntityId, ObjectEnum, StructureRotation};
use crate::placement::{
    GdoBuildArea,
    can_place_building,
    can_worker_place_structure,
    expand_build_area,
    footprint_fits,
    has_structure_overlap,
    rotated_building_size,
    structures_fit,
    within_reach,
};
use crate::structures::{
    DeploymentCenterState,
    ExtractionFacilityState,
    TunnelArea,
    TunnelOperation,
    TunnelState,
    syndicate_structure_stats,
};
use crate::world::{GridPosition, SpaceCrystalPatch, TilePreset};

verus! {

/// Menus of a selected structure.
#[derive(Clone, Copy, Debug, PartialEq, Eq, Structural, Hash)]
pub enum StructureMenuState {
    DcIdle,
    DcBuildMenu,
    DcConstructing,
    DcReadyToPlace,
    DcAwaitingPlacement,
    BarracksMenu,
    EfIdle,
    EfAwaitingPlacement,
    SupplyTowerMenu,
    HeadquartersMenu,
    TunnelIdle,
    TunnelExpandMenu,
    TunnelEjectMenu,
    TunnelAwaitingPlacement,
    RecruitmentCenterMenu,
    ArmoryMenu,
    Inert,
}

/// Menus of a selected Syndicate Agent.
#[derive(Clone, Copy, Debug, PartialEq, Eq, Structural, Hash)]
pub enum AgentMenuState {
    AgentDefault,
    AgentAwaitingPlacement,
}

/// Commands that wait for a target.
#[derive(Clone, Copy, Debug, PartialEq, Eq, Structural, Hash)]
pub enum CommandType {
    Default,
    Move,
    Attack,
    AttackMove,
    AttackGround,
    Patrol,
    Stop,
    HoldPosition,
    Reverse,
    Build,
    BuildTunnel,
    Gather,
    DropOff,
    Enter,
    PickUpSupplies,
    AttachToTower,
    DropOffSupplies,
}

/// State of the object interface.
#[derive(Clone, Copy, Debug, PartialEq, Eq, Structural, Hash)]
pub enum ObjectInterfaceState {
    Default,
    AwaitingTarget(CommandType),
    AgentMenu(AgentMenuState),
    CultsRecruitMenu,
    StructureMenu(StructureMenuState),
}

/// The state places a structure on the map.
pub open spec fn placement_mode(s: ObjectInterfaceState) -> bool {
    s == ObjectInterfaceState::StructureMenu(StructureMenuState::DcAwaitingPlacement) || s
        == ObjectInterfaceState::StructureMenu(StructureMenuState::EfAwaitingPlacement) || s
        == ObjectInterfaceState::StructureMenu(StructureMenuState::TunnelAwaitingPlacement) || s
        == ObjectInterfaceState::AgentMenu(AgentMenuState::AgentAwaitingPlacement)
}

impl ObjectInterfaceState {
    /// Whether the interface is placing a structure.
    pub fn is_placement_mode(&self) -> (r: bool)
        ensures
            r == placement_mode(*self),
    {
        match self {
            ObjectInterfaceState::StructureMenu(StructureMenuState::DcAwaitingPlacement)
            | ObjectInterfaceState::StructureMenu(StructureMenuState::EfAwaitingPlacement)
            | ObjectInterfaceState::StructureMenu(StructureMenuState::TunnelAwaitingPlacement)
            | ObjectInterfaceState::AgentMenu(AgentMenuState::AgentAwaitingPlacement) => true,
            _ => false,
        }
    }
}

/// The placement in progress.
#[derive(Clone, Copy, Debug, PartialEq, Eq)]
pub struct PlacementState {
    pub building_type: Option<ObjectEnum>,
    pub source_entity: Option<EntityId>,
    pub grid_pos: Option<(i32, i32)>,
    pub is_valid: bool,
    pub rotation: StructureRotation,
    pub flip_horizontal: bool,
    pub flip_vertical: bool,
}

impl Default for PlacementState {
    fn default() -> (r: Self)
        ensures
            r.building_type is None,
            r.source_entity is None,
            r.grid_pos is None,
            !r.is_valid,
            r.rotation == StructureRotation::R0,
            !r.flip_horizontal,
            !r.flip_vertical,
    {
        PlacementState {
            building_type: None,
            source_entity: None,
            grid_pos: None,
            is_valid: false,
            rotation: StructureRotation::R0,
            flip_horizontal: false,
            flip_vertical: false,
        }
    }
}

/// The building a placement state places: the structure ready at the
/// Deployment Center, an Extraction Plate, or the tunnel expansion already chosen.
pub open spec fn placed_building(
    s: ObjectInterfaceState,
    dc_ready: Option<ObjectEnum>,
    chosen: Option<ObjectEnum>,
) -> Option<ObjectEnum> {
    if s == ObjectInterfaceState::StructureMenu(StructureMenuState::DcAwaitingPlacement) {
        dc_ready
    } else if s == ObjectInterfaceState::StructureMenu(StructureMenuState::EfAwaitingPlacement) {
        Some(ObjectEnum::ExtractionPlate)
    } else if s == ObjectInterfaceState::StructureMenu(StructureMenuState::TunnelAwaitingPlacement) {
        chosen
    } else {
        None
    }
}

/// What entering placement mode places. `dc_ready` is what the source
/// Deployment Center has ready, `chosen` the expansion already chosen.
pub fn placement_building_type(
    state: &ObjectInterfaceState,
    dc_ready: Option<ObjectEnum>,
    chosen: Option<ObjectEnum>,
) -> (r: Option<ObjectEnum>)
    ensures
        r == placed_building(*state, dc_ready, chosen),
{
    match state {
        ObjectInterfaceState::StructureMenu(StructureMenuState::DcAwaitingPlacement) => dc_ready,
        ObjectInterfaceState::StructureMenu(StructureMenuState::EfAwaitingPlacement) => Some(
            ObjectEnum::ExtractionPlate,
        ),
        ObjectInterfaceState::StructureMenu(StructureMenuState::TunnelAwaitingPlacement) => chosen,
        _ => None,
    }
}

/// Start placing `building`: a fresh placement from `source`, unrotated and unflipped.
pub fn enter_placement(placement: &mut PlacementState, building: ObjectEnum, source: Option<EntityId>)
    ensures
        final(placement).building_type == Some(building),
        final(placement).source_entity == source,
        final(placement).grid_pos is None,
        !final(placement).is_valid,
        final(placement).rotation == StructureRotation::R0,
        !final(placement).flip_horizontal,
        !final(placement).flip_vertical,
{
    placement.building_type = Some(building);
    placement.source_entity = source;
    placement.grid_pos = None;
    placement.is_valid = false;
    placement.rotation = StructureRotation::R0;
    placement.flip_horizontal = false;
    placement.flip_vertical = false;
}

/// Leave placement mode: nothing is placed any more; rotation and flips stay.
pub fn exit_placement(placement: &mut PlacementState)
    ensures
        final(placement).building_type is None,
        final(placement).source_entity is None,
        final(placement).grid_pos is None,
        !final(placement).is_valid,
        final(placement).rotation == old(placement).rotation,
        final(placement).flip_horizontal == old(placement).flip_horizontal,
        final(placement).flip_vertical == old(placement).flip_vertical,
{
    placement.building_type = None;
    placement.source_entity = None;
    placement.grid_pos = None;
    placement.is_valid = false;
}

/// What overlay placement shows.
#[derive(Clone, Copy, Debug, PartialEq, Eq, Structural)]
pub enum OverlayKind {
    /// No overlay: agents build wherever the tiles allow.
    NoOverlay,
    /// The source tunnel's area.
    TunnelArea,
    /// The GDO build area.
    BuildArea,
}

/// Which area the placement overlay shows in a placement state.
pub fn overlay_kind(state: &ObjectInterfaceState) -> (r: OverlayKind)
    requires
        placement_mode(*state),
    ensures
        r == if *state == ObjectInterfaceState::AgentMenu(AgentMenuState::AgentAwaitingPlacement) {
            OverlayKind::NoOverlay
        } else if *state == ObjectInterfaceState::StructureMenu(StructureMenuState::TunnelAwaitingPlacement) {
            OverlayKind::TunnelArea
        } else {
            OverlayKind::BuildArea
        },
{
    match state {
        ObjectInterfaceState::AgentMenu(AgentMenuState::AgentAwaitingPlacement) => OverlayKind::NoOverlay,
        ObjectInterfaceState::StructureMenu(StructureMenuState::TunnelAwaitingPlacement) => OverlayKind::TunnelArea,
        _ => OverlayKind::BuildArea,
    }
}

/// Whether the ghost's position is a valid placement: an agent's tunnel needs
/// buildable free tiles, a tunnel expansion must fit the source tunnel's area
/// (`tunnel_area`) clear of structures, any other building passes the GDO
/// placement check.
pub fn placement_is_valid(
    state: &ObjectInterfaceState,
    grid_x: i32,
    grid_z: i32,
    size_x: u32,
    size_z: u32,
    building_type: ObjectEnum,
    build_area: &GdoBuildArea,
    tiles: &[(GridPosition, TilePreset)],
    structures: &[(GridPosition, (u32, u32))],
    patches: &[(GridPosition, SpaceCrystalPatch)],
    fog_map: &FogOfWarMap,
    player_id: u8,
    tunnel_area: Option<&TunnelArea>,
) -> (r: bool)
    requires
        footprint_fits(grid_x, grid_z, size_x, size_z),
        structures_fit(structures@),
        fog_map.wf(),
    ensures
        *state == ObjectInterfaceState::AgentMenu(AgentMenuState::AgentAwaitingPlacement) ==> r == (
        can_worker_place_structure_spec(grid_x, grid_z, size_x, size_z, tiles@, structures@) is Ok),
        *state == ObjectInterfaceState::StructureMenu(StructureMenuState::TunnelAwaitingPlacement) ==> r == match tunnel_area {
            None => false,
            Some(a) => (forall|x: i32, z: i32|
                grid_x <= x < grid_x + size_x && grid_z <= z < grid_z + size_z ==> #[trigger] a.cells@.contains((x, z)))
                && !(exists|x: i32, z: i32|
                crate::placement::in_footprint(grid_x, grid_z, size_x, size_z, x as int, z as int)
                    && #[trigger] crate::placement::covered(structures@, x as int, z as int)),
        },
        *state != ObjectInterfaceState::AgentMenu(AgentMenuState::AgentAwaitingPlacement) && *state
            != ObjectInterfaceState::StructureMenu(StructureMenuState::TunnelAwaitingPlacement) ==> r == (
        crate::placement::gdo_placement(
            grid_x,
            grid_z,
            size_x,
            size_z,
            building_type,
            build_area.cells@,
            tiles@,
            structures@,
            patches@,
            *fog_map,
            player_id,
        ) is Ok),
{
    match state {
        ObjectInterfaceState::AgentMenu(AgentMenuState::AgentAwaitingPlacement) => {
            can_worker_place_structure(grid_x, grid_z, size_x, size_z, tiles, structures).is_ok()
        },
        ObjectInterfaceState::StructureMenu(StructureMenuState::TunnelAwaitingPlacement) => {
            match tunnel_area {
                Some(a) => {
                    let fits = a.fits_expansion(grid_x, grid_z, size_x, size_z);
                    let overlap = has_structure_overlap(grid_x, grid_z, size_x, size_z, structures);
                    fits && !overlap
                },
                None => false,
            }
        },
        _ => can_place_building(
            grid_x,
            grid_z,
            size_x,
            size_z,
            building_type,
            build_area,
            tiles,
            structures,
            patches,
            fog_map,
            player_id,
        ).is_ok(),
    }
}

/// What the worker placement check answers.
pub open spec fn can_worker_place_structure_spec(
    pos_x: i32,
    pos_z: i32,
    size_x: u32,
    size_z: u32,
    tiles: Seq<(GridPosition, TilePreset)>,
    structures: Seq<(GridPosition, (u32, u32))>,
) -> Result<(), &'static str> {
    crate::placement::fault_result(
        crate::placement::scan_fault(tiles, structures, pos_x as int, pos_z as int, size_x as int, size_z as int, 0, 0),
    )
}

/// What a click in placement mode does.
#[derive(Clone, Copy, Debug, PartialEq, Eq, Structural)]
pub enum PlacementAction {
    /// Nothing.
    Nothing,
    /// Placement cancelled: the interface goes back to the given state.
    Cancel(ObjectInterfaceState),
    /// The Deployment Center's ready structure is placed.
    PlaceDcStructure {
        source: EntityId,
        object: ObjectEnum,
        grid_x: i32,
        grid_z: i32,
        rotation: StructureRotation,
        flip_horizontal: bool,
        flip_vertical: bool,
    },
    /// The Extraction Facility's plate is placed.
    PlaceExtractionPlate { source: EntityId, grid_x: i32, grid_z: i32 },
    /// The tunnel starts building an expansion.
    BuildTunnelExpansion {
        source: EntityId,
        object: ObjectEnum,
        grid_x: i32,
        grid_z: i32,
        rotation: StructureRotation,
        flip_horizontal: bool,
        flip_vertical: bool,
    },
    /// The agent is ordered to build a tunnel.
    AgentBuildTunnel { source: EntityId, grid_x: i32, grid_z: i32 },
}

/// The state a right-click returns to from a placement state.
pub open spec fn cancel_target(s: ObjectInterfaceState) -> Option<ObjectInterfaceState> {
    if s == ObjectInterfaceState::StructureMenu(StructureMenuState::DcAwaitingPlacement) {
        Some(ObjectInterfaceState::StructureMenu(StructureMenuState::DcReadyToPlace))
    } else if s == ObjectInterfaceState::StructureMenu(StructureMenuState::EfAwaitingPlacement) {
        Some(ObjectInterfaceState::StructureMenu(StructureMenuState::EfIdle))
    } else if s == ObjectInterfaceState::StructureMenu(StructureMenuState::TunnelAwaitingPlacement) {
        Some(ObjectInterfaceState::StructureMenu(StructureMenuState::TunnelExpandMenu))
    } else if s == ObjectInterfaceState::AgentMenu(AgentMenuState::AgentAwaitingPlacement) {
        Some(ObjectInterfaceState::AgentMenu(AgentMenuState::AgentDefault))
    } else {
        None
    }
}

/// Decide what a mouse click does in placement mode: a right-click cancels
/// back to the menu; a left-click off the interface on a valid, complete
/// placement places the building of the current placement state.
pub fn placement_click(
    state: &ObjectInterfaceState,
    right_pressed: bool,
    left_pressed: bool,
    cursor_over_ui: bool,
    placement: &PlacementState,
) -> (r: PlacementAction)
    ensures
        !placement_mode(*state) ==> r == PlacementAction::Nothing,
        placement_mode(*state) && right_pressed ==> r == match cancel_target(*state) {
            Some(t) => PlacementAction::Cancel(t),
            None => PlacementAction::Nothing,
        },
        placement_mode(*state) && !right_pressed && !(left_pressed && !cursor_over_ui && placement.is_valid
            && placement.grid_pos is Some && placement.building_type is Some && placement.source_entity is Some)
            ==> r == PlacementAction::Nothing,
        placement_mode(*state) && !right_pressed && left_pressed && !cursor_over_ui && placement.is_valid
            && placement.grid_pos is Some && placement.building_type is Some && placement.source_entity is Some
            ==> r == {
            let (gx, gz) = placement.grid_pos->0;
            let source = placement.source_entity->0;
            let object = placement.building_type->0;
            if *state == ObjectInterfaceState::StructureMenu(StructureMenuState::DcAwaitingPlacement) {
                PlacementAction::PlaceDcStructure {
                    source,
                    object,
                    grid_x: gx,
                    grid_z: gz,
                    rotation: placement.rotation,
                    flip_horizontal: placement.flip_horizontal,
                    flip_vertical: placement.flip_vertical,
                }
            } else if *state == ObjectInterfaceState::StructureMenu(StructureMenuState::EfAwaitingPlacement) {
                PlacementAction::PlaceExtractionPlate { source, grid_x: gx, grid_z: gz }
            } else if *state == ObjectInterfaceState::StructureMenu(StructureMenuState::TunnelAwaitingPlacement) {
                PlacementAction::BuildTunnelExpansion {
                    source,
                    object,
                    grid_x: gx,
                    grid_z: gz,
                    rotation: placement.rotation,
                    flip_horizontal: placement.flip_horizontal,
                    flip_vertical: placement.flip_vertical,
                }
            } else {
                PlacementAction::AgentBuildTunnel { source, grid_x: gx, grid_z: gz }
            }
        },
{
    if !state.is_placement_mode() {
        return PlacementAction::Nothing;
    }
    if right_pressed {
        return match state {
            ObjectInterfaceState::StructureMenu(StructureMenuState::DcAwaitingPlacement) => PlacementAction::Cancel(
                ObjectInterfaceState::StructureMenu(StructureMenuState::DcReadyToPlace),
            ),
            ObjectInterfaceState::StructureMenu(StructureMenuState::EfAwaitingPlacement) => PlacementAction::Cancel(
                ObjectInterfaceState::StructureMenu(StructureMenuState::EfIdle),
            ),
            ObjectInterfaceState::StructureMenu(StructureMenuState::TunnelAwaitingPlacement) => PlacementAction::Cancel(
                ObjectInterfaceState::StructureMenu(StructureMenuState::TunnelExpandMenu),
            ),
            ObjectInterfaceState::AgentMenu(AgentMenuState::AgentAwaitingPlacement) => PlacementAction::Cancel(
                ObjectInterfaceState::AgentMenu(AgentMenuState::AgentDefault),
            ),
            _ => PlacementAction::Nothing,
        };
    }
    if !left_pressed || cursor_over_ui || !placement.is_valid {
        return PlacementAction::Nothing;
    }
    let (grid_x, grid_z) = match placement.grid_pos {
        Some(p) => p,
        None => {
            return PlacementAction::Nothing;
        },
    };
    let object = match placement.building_type {
        Some(b) => b,
        None => {
            return PlacementAction::Nothing;
        },
    };
    let source = match placement.source_entity {
        Some(e) => e,
        None => {
            return PlacementAction::Nothing;
        },
    };
    match state {
        ObjectInterfaceState::StructureMenu(StructureMenuState::DcAwaitingPlacement) => {
            PlacementAction::PlaceDcStructure {
                source,
                object,
                grid_x,
                grid_z,
                rotation: placement.rotation,
                flip_horizontal: placement.flip_horizontal,
                flip_vertical: placement.flip_vertical,
            }
        },
        ObjectInterfaceState::StructureMenu(StructureMenuState::EfAwaitingPlacement) => {
            PlacementAction::PlaceExtractionPlate { source, grid_x, grid_z }
        },
        ObjectInterfaceState::StructureMenu(StructureMenuState::TunnelAwaitingPlacement) => {
            PlacementAction::BuildTunnelExpansion {
                source,
                object,
                grid_x,
                grid_z,
                rotation: placement.rotation,
                flip_horizontal: placement.flip_horizontal,
                flip_vertical: placement.flip_vertical,
            }
        },
        _ => PlacementAction::AgentBuildTunnel { source, grid_x, grid_z },
    }
}

/// How far a structure placed from the Deployment Center extends the build
/// area; `None` for what the Deployment Center does not place.
pub open spec fn dc_build_radius(object: ObjectEnum) -> Option<u32> {
    match object {
        ObjectEnum::PowerPlant => Some(1u32),
        ObjectEnum::Barracks => Some(2u32),
        ObjectEnum::ExtractionFacility => Some(2u32),
        ObjectEnum::SupplyTower => Some(1u32),
        _ => None,
    }
}

/// How far a structure placed from the Deployment Center extends the build
/// area; `None` for what the Deployment Center does not place.
pub fn dc_placement_build_radius(object: ObjectEnum) -> (r: Option<u32>)
    ensures
        r == dc_build_radius(object),
{
    match object {
        ObjectEnum::PowerPlant => Some(1),
        ObjectEnum::Barracks => Some(2),
        ObjectEnum::ExtractionFacility => Some(2),
        ObjectEnum::SupplyTower => Some(1),
        _ => None,
    }
}

/// Footprint size of a building of base size `(size_x, size_z)` under a rotation.
pub open spec fn rotated_size(size_x: u32, size_z: u32, rotation: StructureRotation) -> (u32, u32) {
    match rotation {
        StructureRotation::R0 | StructureRotation::R180 => (size_x, size_z),
        StructureRotation::R90 | StructureRotation::R270 => (size_z, size_x),
    }
}

/// The interface state after a left-click placed from a placement state: back
/// to the source's idle menu, or the agent's default menu.
pub open spec fn state_after_placement(s: ObjectInterfaceState) -> ObjectInterfaceState {
    if s == ObjectInterfaceState::StructureMenu(StructureMenuState::DcAwaitingPlacement) {
        ObjectInterfaceState::StructureMenu(StructureMenuState::DcIdle)
    } else if s == ObjectInterfaceState::StructureMenu(StructureMenuState::EfAwaitingPlacement) {
        ObjectInterfaceState::StructureMenu(StructureMenuState::EfIdle)
    } else if s == ObjectInterfaceState::StructureMenu(StructureMenuState::TunnelAwaitingPlacement) {
        ObjectInterfaceState::StructureMenu(StructureMenuState::TunnelIdle)
    } else {
        ObjectInterfaceState::AgentMenu(AgentMenuState::AgentDefault)
    }
}

/// Place the Deployment Center's ready structure `object`, of base size
/// `(size_x, size_z)`, at `(grid_x, grid_z)`: the Deployment Center no longer
/// holds it, the build area grows by the structure's build radius around its
/// rotated footprint (not at all for what has no radius), and the interface
/// returns to the Deployment Center's idle menu, which is returned.
pub fn place_dc_structure<P>(
    dc: &mut DeploymentCenterState<P>,
    build_area: &mut GdoBuildArea,
    object: ObjectEnum,
    grid_x: i32,
    grid_z: i32,
    size_x: u32,
    size_z: u32,
    rotation: StructureRotation,
) -> (r: ObjectInterfaceState)
    requires
        dc_build_radius(object) matches Some(rad) ==> ({
            let (w, h) = rotated_size(size_x, size_z, rotation);
            &&& w <= i32::MAX && h <= i32::MAX
            &&& grid_x as int - rad as int >= i32::MIN
            &&& grid_z as int - rad as int >= i32::MIN
            &&& grid_x as int + w as int + rad as int <= i32::MAX
            &&& grid_z as int + h as int + rad as int <= i32::MAX
        }),
    ensures
        r == state_after_placement(ObjectInterfaceState::StructureMenu(StructureMenuState::DcAwaitingPlacement)),
        final(dc).ready_to_place is None,
        final(dc).current_construction == old(dc).current_construction,
        final(dc).construction_progress == old(dc).construction_progress,
        match dc_build_radius(object) {
            None => final(build_area).cells@ == old(build_area).cells@,
            Some(rad) => {
                let (w, h) = rotated_size(size_x, size_z, rotation);
                forall|c: (i32, i32)|
                    #[trigger] final(build_area).cells@.contains(c) <==> old(build_area).cells@.contains(c)
                        || within_reach(grid_x, grid_z, w, h, rad, c)
            },
        },
{
    dc.ready_to_place = None;
    let (w, h) = rotated_building_size(size_x, size_z, &rotation);
    match dc_placement_build_radius(object) {
        Some(rad) => {
            expand_build_area(build_area, grid_x, grid_z, w, h, rad);
        },
        None => {},
    }
    ObjectInterfaceState::StructureMenu(StructureMenuState::DcIdle)
}

/// Index of the first patch at `(x, z)` from position `k` of the list on.
pub open spec fn first_patch_index(patches: Seq<(GridPosition, SpaceCrystalPatch)>, k: int, x: int, z: int) -> Option<
    int,
>
    decreases patches.len() - k,
{
    if k < 0 || k >= patches.len() {
        None
    } else if patches[k].0.x == x && patches[k].0.z == z {
        Some(k)
    } else {
        first_patch_index(patches, k + 1, x, z)
    }
}

/// Place the Extraction Facility's plate at `(grid_x, grid_z)`: the facility
/// no longer has a plate ready; the first patch there, if any, now has a
/// plate and the build area takes in its cell; the interface returns to the
/// facility's idle menu. Returns that state and the index of the patch the
/// plate sits on (no plate is placed without one).
pub fn place_extraction_plate<P>(
    ef: &mut ExtractionFacilityState<P>,
    build_area: &mut GdoBuildArea,
    patches: &mut Vec<(GridPosition, SpaceCrystalPatch)>,
    grid_x: i32,
    grid_z: i32,
) -> (r: (ObjectInterfaceState, Option<usize>))
    requires
        grid_x < i32::MAX,
        grid_z < i32::MAX,
    ensures
        r.0 == state_after_placement(ObjectInterfaceState::StructureMenu(StructureMenuState::EfAwaitingPlacement)),
        !final(ef).ready_to_place,
        final(ef).current_construction == old(ef).current_construction,
        final(ef).construction_progress == old(ef).construction_progress,
        match first_patch_index(old(patches)@, 0, grid_x as int, grid_z as int) {
            None => r.1 is None && final(patches)@ == old(patches)@ && final(build_area).cells@ == old(
                build_area,
            ).cells@,
            Some(i) => r.1 == Some(i as usize) && final(patches)@ == old(patches)@.update(
                i,
                (
                    old(patches)@[i].0,
                    SpaceCrystalPatch { has_plate: true, ..old(patches)@[i].1 },
                ),
            ) && forall|c: (i32, i32)|
                #[trigger] final(build_area).cells@.contains(c) <==> old(build_area).cells@.contains(c) || within_reach(
                    grid_x,
                    grid_z,
                    1,
                    1,
                    0,
                    c,
                ),
        },
{
    ef.ready_to_place = false;
    let n = patches.len();
    let mut i: usize = 0;
    while i < n
        invariant
            n == patches@.len(),
            patches@ == old(patches)@,
            0 <= i <= n,
            grid_x < i32::MAX,
            grid_z < i32::MAX,
            !ef.ready_to_place,
            ef.current_construction == old(ef).current_construction,
            ef.construction_progress == old(ef).construction_progress,
            build_area.cells@ == old(build_area).cells@,
            first_patch_index(old(patches)@, 0, grid_x as int, grid_z as int) == first_patch_index(
                old(patches)@,
                i as int,
                grid_x as int,
                grid_z as int,
            ),
        decreases n - i,
    {
        let (pos, patch) = patches[i];
        if pos.x == grid_x && pos.z == grid_z {
            let updated = SpaceCrystalPatch { has_plate: true, ..patch };
            patches.set(i, (pos, updated));
            expand_build_area(build_area, grid_x, grid_z, 1, 1, 0);
            return (ObjectInterfaceState::StructureMenu(StructureMenuState::EfIdle), Some(i));
        }
        i = i + 1;
    }
    (ObjectInterfaceState::StructureMenu(StructureMenuState::EfIdle), None)
}

/// A left-click placing a tunnel expansion: the expansion is paid for and
/// started when the player can afford it (see `begin_tunnel_expansion`), and
/// the interface returns to the tunnel's idle menu either way. Returns that
/// state and whether the expansion started.
pub fn place_tunnel_expansion<P>(
    tunnel: &mut TunnelState<P>,
    space_crystals: &mut i32,
    object: ObjectEnum,
    grid_x: i32,
    grid_z: i32,
    rotation: StructureRotation,
    flip_horizontal: bool,
    flip_vertical: bool,
    zero: P,
) -> (r: (ObjectInterfaceState, bool))
    ensures
        r.0 == state_after_placement(ObjectInterfaceState::StructureMenu(StructureMenuState::TunnelAwaitingPlacement)),
        ({
            let cost: int = if object == ObjectEnum::Headquarters {
                200
            } else {
                0
            };
            &&& r.1 == (*old(space_crystals) >= cost)
            &&& r.1 ==> *final(space_crystals) == *old(space_crystals) - cost
            &&& r.1 ==> final(tunnel).current_operation == Some(
                TunnelOperation::BuildingExpansion {
                    object,
                    progress: zero,
                    grid_x,
                    grid_z,
                    rotation,
                    flip_horizontal,
                    flip_vertical,
                },
            )
            &&& !r.1 ==> *final(space_crystals) == *old(space_crystals) && final(tunnel).current_operation == old(tunnel).current_operation
        }),
        final(tunnel).tier == old(tunnel).tier,
{
    let started = begin_tunnel_expansion(
        tunnel,
        space_crystals,
        object,
        grid_x,
        grid_z,
        rotation,
        flip_horizontal,
        flip_vertical,
        zero,
    );
    (ObjectInterfaceState::StructureMenu(StructureMenuState::TunnelIdle), started)
}

/// A left-click ordering the agent to build a tunnel at `(grid_x, grid_z)`:
/// refused when another agent already builds there (`builder_sites` lists the
/// cells agents are building at); the interface returns to the agent's
/// default menu either way. Returns that state and whether the order is given.
pub fn agent_build_tunnel_click(builder_sites: &[(i32, i32)], grid_x: i32, grid_z: i32) -> (r: (
    ObjectInterfaceState,
    bool,
))
    ensures
        r.0 == state_after_placement(ObjectInterfaceState::AgentMenu(AgentMenuState::AgentAwaitingPlacement)),
        r.1 == !builder_sites@.contains((grid_x, grid_z)),
{
    let n = builder_sites.len();
    let mut i: usize = 0;
    while i < n
        invariant
            n == builder_sites@.len(),
            0 <= i <= n,
            forall|j: int| 0 <= j < i ==> builder_sites@[j] != (grid_x, grid_z),
        decreases n - i,
    {
        if builder_sites[i].0 == grid_x && builder_sites[i].1 == grid_z {
            proof {
                assert(builder_sites@[i as int] == (grid_x, grid_z));
            }
            return (ObjectInterfaceState::AgentMenu(AgentMenuState::AgentDefault), false);
        }
        i = i + 1;
    }
    (ObjectInterfaceState::AgentMenu(AgentMenuState::AgentDefault), true)
}

/// Space Crystals a tunnel expansion costs: the Headquarters' cost, nothing
/// for anything else.
pub fn tunnel_expansion_cost(object: ObjectEnum) -> (r: u32)
    ensures
        r == if object == ObjectEnum::Headquarters {
            200u32
        } else {
            0u32
        },
{
    match object {
        ObjectEnum::Headquarters => syndicate_structure_stats::HQ_SC_COST,
        _ => 0,
    }
}

/// Pay for and start a tunnel expansion: when the player has the crystals,
/// they are deducted and the tunnel's operation becomes building the
/// expansion from `zero` progress. Returns whether it started.
pub fn begin_tunnel_expansion<P>(
    tunnel: &mut TunnelState<P>,
    space_crystals: &mut i32,
    object: ObjectEnum,
    grid_x: i32,
    grid_z: i32,
    rotation: StructureRotation,
    flip_horizontal: bool,
    flip_vertical: bool,
    zero: P,
) -> (r: bool)
    ensures
        ({
            let cost: int = if object == ObjectEnum::Headquarters {
                200
            } else {
                0
            };
            &&& r == (*old(space_crystals) >= cost)
            &&& r ==> *final(space_crystals) == *old(space_crystals) - cost
            &&& r ==> final(tunnel).current_operation == Some(
                TunnelOperation::BuildingExpansion {
                    object,
                    progress: zero,
                    grid_x,
                    grid_z,
                    rotation,
                    flip_horizontal,
                    flip_vertical,
                },
            )
            &&& !r ==> *final(space_crystals) == *old(space_crystals) && final(tunnel).current_operation == old(tunnel).current_operation
        }),
        final(tunnel).tier == old(tunnel).tier,
{
    let cost = tunnel_expansion_cost(object) as i32;
    if *space_crystals >= cost {
        *space_crystals = *space_crystals - cost;
        tunnel.current_operation = Some(
            TunnelOperation::BuildingExpansion {
                object,
                progress: zero,
                grid_x,
                grid_z,
                rotation,
                flip_horizontal,
                flip_vertical,
            },
        );
        true
    } else {
        false
    }
}

} // verus!
