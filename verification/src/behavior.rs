//! Per-unit behavior state: the state of each movement model's executor, the
//! action channels of a unit's base, and the multi-step worker behaviors
//! (entering a tunnel, building, gathering, supplying). `P` is a world
//! position.
use vstd::prelude::*;
use crate::objects::{EntityId, ObjectEnum};

verus! {

/// Executor state of the unit's movement model.
#[derive(Clone, Debug)]
pub enum BaseBehaviorState<P> {
    TurnRate { planned_path: Vec<P>, path_index: usize },
    FixedTurnRadius { planned_path: Vec<P>, path_index: usize },
    SpeedTurnRadius { planned_path: Vec<P>, path_index: usize },
    Drag { planned_path: Vec<P>, path_index: usize, drift_velocity: P },
    Glider { planned_path: Vec<P>, path_index: usize, circling: bool, strafe_target: Option<P> },
    /// No movement executor is running.
    Idle,
}

impl<P> Default for BaseBehaviorState<P> {
    fn default() -> (r: Self)
        ensures
            r is Idle,
    {
        BaseBehaviorState::Idle
    }
}

/// Locomotion channel of a unit's base.
#[derive(Clone, Debug)]
pub enum LocomotionChannel<P> {
    Moving(Vec<P>),
    Reversing(Vec<P>),
    Stopping,
    Stationary,
}

impl<P> Default for LocomotionChannel<P> {
    fn default() -> (r: Self)
        ensures
            r is Stationary,
    {
        LocomotionChannel::Stationary
    }
}

/// Orientation channel of a unit's base.
#[derive(Clone, Copy, Debug)]
pub enum OrientationChannel<P> {
    Turning(P),
    Maintaining,
}

impl<P> Default for OrientationChannel<P> {
    fn default() -> (r: Self)
        ensures
            r is Maintaining,
    {
        OrientationChannel::Maintaining
    }
}

/// Orientation channel of a unit's turret.
#[derive(Clone, Copy, Debug)]
pub enum TurretOrientationChannel<P> {
    Turning(P),
    Maintaining,
}

impl<P> Default for TurretOrientationChannel<P> {
    fn default() -> (r: Self)
        ensures
            r is Maintaining,
    {
        TurretOrientationChannel::Maintaining
    }
}

/// A unit walking to a tunnel to enter it.
#[derive(Clone, Debug)]
pub struct EnteringTunnelBehavior<P> {
    pub target_tunnel: EntityId,
    pub path: Vec<P>,
    pub path_index: usize,
}

impl<P> EnteringTunnelBehavior<P> {
    /// Head for the tunnel, with no path yet.
    pub fn new(target_tunnel: EntityId) -> (r: Self)
        ensures
            r.target_tunnel == target_tunnel,
            r.path@.len() == 0,
            r.path_index == 0,
    {
        EnteringTunnelBehavior { target_tunnel, path: Vec::new(), path_index: 0 }
    }

    /// Head for the tunnel along a planned path, from its start.
    pub fn with_path(target_tunnel: EntityId, path: Vec<P>) -> (r: Self)
        ensures
            r.target_tunnel == target_tunnel,
            r.path@ == path@,
            r.path_index == 0,
    {
        EnteringTunnelBehavior { target_tunnel, path, path_index: 0 }
    }
}

/// A worker walking to a site to build a structure.
#[derive(Clone, Debug)]
pub struct BuildingStructureBehavior<P> {
    pub target_location: P,
    pub object_to_build: ObjectEnum,
    pub arrived: bool,
    pub path: Vec<P>,
    pub path_index: usize,
}

impl<P> BuildingStructureBehavior<P> {
    /// Head for the site, not yet arrived, with no path yet.
    pub fn new(target_location: P, object_to_build: ObjectEnum) -> (r: Self)
        ensures
            r.target_location == target_location,
            r.object_to_build == object_to_build,
            !r.arrived,
            r.path@.len() == 0,
            r.path_index == 0,
    {
        BuildingStructureBehavior { target_location, object_to_build, arrived: false, path: Vec::new(), path_index: 0 }
    }

    /// Head for the site along a planned path, not yet arrived.
    pub fn with_path(target_location: P, object_to_build: ObjectEnum, path: Vec<P>) -> (r: Self)
        ensures
            r.target_location == target_location,
            r.object_to_build == object_to_build,
            !r.arrived,
            r.path@ == path@,
            r.path_index == 0,
    {
        BuildingStructureBehavior { target_location, object_to_build, arrived: false, path, path_index: 0 }
    }
}

/// Step of the gathering cycle.
#[derive(Clone, Copy, Debug, PartialEq)]
pub enum GatherPhase<P> {
    MovingToResource,
    Extracting { frames_remaining: u32 },
    MovingToTunnel { tunnel_entity: EntityId, side_position: P },
    DroppingOff { tunnel_entity: EntityId, frames_remaining: u32 },
}

/// A worker gathering Space Crystals from a resource.
#[derive(Clone, Debug)]
pub struct GatheringResourceBehavior<P> {
    pub target_resource: EntityId,
    pub phase: GatherPhase<P>,
    pub path: Vec<P>,
    pub path_index: usize,
}

impl<P> GatheringResourceBehavior<P> {
    /// Start gathering: first walk to the resource.
    pub fn new(target_resource: EntityId) -> (r: Self)
        ensures
            r.target_resource == target_resource,
            r.phase is MovingToResource,
            r.path@.len() == 0,
            r.path_index == 0,
    {
        GatheringResourceBehavior { target_resource, phase: GatherPhase::MovingToResource, path: Vec::new(), path_index: 0 }
    }
}

/// Step of dropping off carried resources.
#[derive(Clone, Copy, Debug, PartialEq, Eq, Structural)]
pub enum DropOffPhase {
    MovingToTunnel,
    DroppingOff { frames_remaining: u32 },
}

/// A worker bringing carried resources to a tunnel.
#[derive(Clone, Debug)]
pub struct DroppingOffResourcesBehavior<P> {
    pub target_tunnel: EntityId,
    pub phase: DropOffPhase,
    pub path: Vec<P>,
    pub path_index: usize,
}

impl<P> DroppingOffResourcesBehavior<P> {
    /// Start the drop-off: first walk to the tunnel.
    pub fn new(target_tunnel: EntityId) -> (r: Self)
        ensures
            r.target_tunnel == target_tunnel,
            r.phase == DropOffPhase::MovingToTunnel,
            r.path@.len() == 0,
            r.path_index == 0,
    {
        DroppingOffResourcesBehavior { target_tunnel, phase: DropOffPhase::MovingToTunnel, path: Vec::new(), path_index: 0 }
    }
}

/// Step of building a tunnel.
#[derive(Clone, Copy, Debug, PartialEq, Eq, Structural)]
pub enum BuildTunnelPhase {
    MovingToSite,
    Constructing { tunnel_entity: EntityId, frames_elapsed: u32 },
}

/// An Agent building a tunnel at a site.
#[derive(Clone, Debug)]
pub struct BuildingTunnelBehavior<P> {
    pub target_location: P,
    pub phase: BuildTunnelPhase,
    pub path: Vec<P>,
    pub path_index: usize,
}

impl<P> BuildingTunnelBehavior<P> {
    /// Start building: first walk to the site.
    pub fn new(target_location: P) -> (r: Self)
        ensures
            r.target_location == target_location,
            r.phase == BuildTunnelPhase::MovingToSite,
            r.path@.len() == 0,
            r.path_index == 0,
    {
        BuildingTunnelBehavior { target_location, phase: BuildTunnelPhase::MovingToSite, path: Vec::new(), path_index: 0 }
    }
}

/// Step of picking up supplies.
#[derive(Clone, Copy, Debug, PartialEq, Eq, Structural)]
pub enum PickUpPhase {
    MovingToSDS,
    Transferring { frames_remaining: u32 },
}

/// A Supply Chopper picking up supplies at a Supply Delivery Station.
#[derive(Clone, Copy, Debug, PartialEq, Eq, Structural)]
pub struct PickingUpSuppliesBehavior {
    pub target_sds: EntityId,
    pub phase: PickUpPhase,
}

impl PickingUpSuppliesBehavior {
    /// Start the pick-up: first fly to the station.
    pub fn new(target_sds: EntityId) -> (r: Self)
        ensures
            r.target_sds == target_sds,
            r.phase == PickUpPhase::MovingToSDS,
    {
        PickingUpSuppliesBehavior { target_sds, phase: PickUpPhase::MovingToSDS }
    }
}

/// A Supply Chopper flying to a tower to attach to it.
#[derive(Clone, Copy, Debug, PartialEq, Eq, Structural)]
pub struct AttachingToTowerBehavior {
    pub target_tower: EntityId,
}

impl AttachingToTowerBehavior {
    /// Fly to the tower.
    pub fn new(target_tower: EntityId) -> (r: Self)
        ensures
            r.target_tower == target_tower,
    {
        AttachingToTowerBehavior { target_tower }
    }
}

/// A Supply Chopper delivering supplies to a tower.
#[derive(Clone, Copy, Debug, PartialEq, Eq, Structural)]
pub struct DroppingOffSuppliesBehavior {
    pub target_tower: EntityId,
}

impl DroppingOffSuppliesBehavior {
    /// Fly to the tower.
    pub fn new(target_tower: EntityId) -> (r: Self)
        ensures
            r.target_tower == target_tower,
    {
        DroppingOffSuppliesBehavior { target_tower }
    }
}

/// A unit inside its owner's tunnel network.
#[derive(Clone, Copy, Debug, PartialEq, Eq, Structural)]
pub struct InTunnelNetwork {
    pub owner_player: u8,
}

} // verus!
