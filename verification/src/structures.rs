//! Structure state: production queues and costs, power and build radius
//! values, and the Syndicate tunnel network (tiers, areas, upgrade rules).
use vstd::prelude::*;
use crate::cells::CellSet;
use crate::objects::{EntityId, ObjectEnum, StructureRotation};
use crate::units::UnitBaseEnum;

pub mod gdo_structure_stats;
pub mod syndicate_structure_stats;

verus! {

/// Power value of a structure: positive for a generator, negative for a consumer.
#[derive(Clone, Copy, Debug, PartialEq, Eq, Structural)]
pub struct PowerValue(pub i32);

/// How far a structure extends the build area, in grid units.
#[derive(Clone, Copy, Debug, PartialEq, Eq, Structural)]
pub struct BuildRadiusExtension(pub u32);

/// Cost to construct a structure or produce a unit.
#[derive(Clone, Copy, Debug, PartialEq, Eq, Structural)]
pub struct StructureCost {
    pub space_crystals: u32,
    pub build_frames: u32,
}

/// Rally target of a production building: a location (of the caller's
/// position type) or an object.
#[derive(Clone, Copy, Debug)]
pub enum RallyTarget<L> {
    Location(L),
    Object(EntityId),
}

/// Marker of the rally point indicator of a production structure.
#[derive(Clone, Copy, Debug, PartialEq, Eq, Structural)]
pub struct RallyPointMarker {
    pub owner_structure: EntityId,
}

/// Longest build queue of a production structure.
pub const MAX_QUEUE_SIZE: usize = 5;

/// The queue after trying to add `object`: appended unless the queue is full.
pub open spec fn queued_after(queue: Seq<ObjectEnum>, object: ObjectEnum) -> Seq<ObjectEnum> {
    if queue.len() < MAX_QUEUE_SIZE {
        queue.push(object)
    } else {
        queue
    }
}

/// What cancelling gives back, and the queue and current build after it: the
/// last queued item first, else the current build.
pub open spec fn cancel_outcome(queue: Seq<ObjectEnum>, current: Option<ObjectEnum>) -> (
    Option<ObjectEnum>,
    Seq<ObjectEnum>,
    Option<ObjectEnum>,
) {
    if queue.len() > 0 {
        (Some(queue.last()), queue.drop_last(), current)
    } else {
        (current, queue, None)
    }
}

// === Deployment Center ===

/// Cost of what a Deployment Center builds.
pub open spec fn dc_cost(object: ObjectEnum) -> Option<StructureCost> {
    match object {
        ObjectEnum::PowerPlant => Some(StructureCost { space_crystals: 150, build_frames: 160 }),
        ObjectEnum::Barracks => Some(StructureCost { space_crystals: 200, build_frames: 160 }),
        ObjectEnum::SupplyTower => Some(StructureCost { space_crystals: 200, build_frames: 240 }),
        _ => None,
    }
}

/// Refund of a cancelled construction: three quarters (rounded down) once
/// ready to place, everything while still under construction.
pub open spec fn refund_of(cost: u32, ready: bool, constructing: bool) -> Option<u32> {
    if ready {
        Some((cost * 3 / 4) as u32)
    } else if constructing {
        Some(cost)
    } else {
        None
    }
}

/// Instance state of the Deployment Center; `P` is the progress measure.
#[derive(Clone, Copy, Debug)]
pub struct DeploymentCenterState<P> {
    /// Structure under construction.
    pub current_construction: Option<ObjectEnum>,
    /// Progress of the current construction.
    pub construction_progress: Option<P>,
    /// Structure ready to be placed by the player.
    pub ready_to_place: Option<ObjectEnum>,
}

impl<P> Default for DeploymentCenterState<P> {
    fn default() -> (r: Self)
        ensures
            r.current_construction is None,
            r.construction_progress is None,
            r.ready_to_place is None,
    {
        DeploymentCenterState { current_construction: None, construction_progress: None, ready_to_place: None }
    }
}

impl<P> DeploymentCenterState<P> {
    /// Cost of the structures the Deployment Center can build.
    pub fn construction_cost(object: &ObjectEnum) -> (r: Option<StructureCost>)
        ensures
            r == dc_cost(*object),
    {
        match object {
            ObjectEnum::PowerPlant => Some(StructureCost { space_crystals: 150, build_frames: 160 }),
            ObjectEnum::Barracks => Some(StructureCost { space_crystals: 200, build_frames: 160 }),
            ObjectEnum::SupplyTower => Some(StructureCost { space_crystals: 200, build_frames: 240 }),
            _ => None,
        }
    }

    /// Refund for cancelling `object`: full during construction, 75% (rounded
    /// down) when ready to place, nothing when idle or for other objects.
    pub fn cancellation_refund(&self, object: &ObjectEnum) -> (r: Option<u32>)
        ensures
            r == match dc_cost(*object) {
                Some(c) => refund_of(c.space_crystals, self.ready_to_place is Some, self.current_construction is Some),
                None => None,
            },
    {
        match Self::construction_cost(object) {
            Some(cost) => {
                if self.ready_to_place.is_some() {
                    Some((cost.space_crystals * 3) / 4)
                } else if self.current_construction.is_some() {
                    Some(cost.space_crystals)
                } else {
                    None
                }
            },
            None => None,
        }
    }
}

// === Production queues ===

/// Cost of what a Barracks produces.
pub open spec fn barracks_cost(object: ObjectEnum) -> Option<StructureCost> {
    match object {
        ObjectEnum::Peacekeeper => Some(StructureCost { space_crystals: 50, build_frames: 80 }),
        _ => None,
    }
}

/// Cost of what a Headquarters produces.
pub open spec fn headquarters_cost(object: ObjectEnum) -> Option<StructureCost> {
    match object {
        ObjectEnum::SyndicateAgent => Some(StructureCost { space_crystals: 100, build_frames: 160 }),
        ObjectEnum::SyndicateGuard => Some(StructureCost { space_crystals: 125, build_frames: 120 }),
        _ => None,
    }
}

/// Cost of what a Supply Tower produces.
pub open spec fn supply_tower_cost(object: ObjectEnum) -> Option<StructureCost> {
    match object {
        ObjectEnum::SupplyChopper => Some(StructureCost { space_crystals: 100, build_frames: 160 }),
        _ => None,
    }
}

/// Instance state of the Barracks; `P` measures progress, `L` is a location.
#[derive(Clone, Debug)]
pub struct BarracksState<P, L> {
    /// Rally point for produced units.
    pub rally_point: Option<RallyTarget<L>>,
    /// Build queue (at most five entries).
    pub build_queue: Vec<ObjectEnum>,
    /// Unit being built.
    pub current_build: Option<ObjectEnum>,
    /// Progress of the current build.
    pub current_build_progress: Option<P>,
}

impl<P, L> Default for BarracksState<P, L> {
    fn default() -> (r: Self)
        ensures
            r.rally_point is None,
            r.build_queue@.len() == 0,
            r.current_build is None,
            r.current_build_progress is None,
    {
        BarracksState { rally_point: None, build_queue: Vec::new(), current_build: None, current_build_progress: None }
    }
}

impl<P, L> BarracksState<P, L> {
    /// Maximum entries in the build queue.
    pub const MAX_QUEUE_SIZE: usize = 5;

    /// Production cost of the units the Barracks can produce.
    pub fn production_cost(object: &ObjectEnum) -> (r: Option<StructureCost>)
        ensures
            r == barracks_cost(*object),
    {
        match object {
            ObjectEnum::Peacekeeper => Some(StructureCost { space_crystals: 50, build_frames: 80 }),
            _ => None,
        }
    }

    /// Append to the build queue unless it is full; returns whether it was added.
    pub fn try_queue(&mut self, object: ObjectEnum) -> (r: bool)
        ensures
            r == (old(self).build_queue@.len() < MAX_QUEUE_SIZE),
            final(self).build_queue@ == queued_after(old(self).build_queue@, object),
            final(self).current_build == old(self).current_build,
            final(self).current_build_progress == old(self).current_build_progress,
            final(self).rally_point == old(self).rally_point,
    {
        if self.build_queue.len() >= Self::MAX_QUEUE_SIZE {
            return false;
        }
        self.build_queue.push(object);
        true
    }

    /// Cancel the last queued item, or the current build when the queue is
    /// empty; returns what was cancelled.
    pub fn cancel_last(&mut self) -> (r: Option<ObjectEnum>)
        ensures
            (r, final(self).build_queue@, final(self).current_build) == cancel_outcome(
                old(self).build_queue@,
                old(self).current_build,
            ),
            old(self).build_queue@.len() > 0 ==> final(self).current_build_progress == old(self).current_build_progress,
            old(self).build_queue@.len() == 0 && old(self).current_build is Some
                ==> final(self).current_build_progress is None,
            old(self).build_queue@.len() == 0 && old(self).current_build is None
                ==> final(self).current_build_progress == old(self).current_build_progress,
            final(self).rally_point == old(self).rally_point,
    {
        if self.build_queue.len() > 0 {
            self.build_queue.pop()
        } else {
            match self.current_build {
                Some(cancelled) => {
                    self.current_build = None;
                    self.current_build_progress = None;
                    Some(cancelled)
                },
                None => None,
            }
        }
    }

    /// Whether anything is queued or being built.
    pub fn has_cancellable(&self) -> (r: bool)
        ensures
            r == (self.build_queue@.len() > 0 || self.current_build is Some),
    {
        self.build_queue.len() > 0 || self.current_build.is_some()
    }
}

/// Instance state of the Headquarters (underground unit production).
#[derive(Clone, Debug)]
pub struct HeadquartersState<P, L> {
    /// Rally point for produced units.
    pub rally_point: Option<RallyTarget<L>>,
    /// Build queue (at most five entries).
    pub build_queue: Vec<ObjectEnum>,
    /// Unit being built.
    pub current_build: Option<ObjectEnum>,
    /// Progress of the current build.
    pub current_build_progress: Option<P>,
}

impl<P, L> Default for HeadquartersState<P, L> {
    fn default() -> (r: Self)
        ensures
            r.rally_point is None,
            r.build_queue@.len() == 0,
            r.current_build is None,
            r.current_build_progress is None,
    {
        HeadquartersState { rally_point: None, build_queue: Vec::new(), current_build: None, current_build_progress: None }
    }
}

impl<P, L> HeadquartersState<P, L> {
    /// Maximum entries in the build queue.
    pub const MAX_QUEUE_SIZE: usize = 5;

    /// Production cost of the units the Headquarters can produce.
    pub fn production_cost(object: &ObjectEnum) -> (r: Option<StructureCost>)
        ensures
            r == headquarters_cost(*object),
    {
        match object {
            ObjectEnum::SyndicateAgent => Some(StructureCost { space_crystals: 100, build_frames: 160 }),
            ObjectEnum::SyndicateGuard => Some(StructureCost { space_crystals: 125, build_frames: 120 }),
            _ => None,
        }
    }

    /// Append to the build queue unless it is full; returns whether it was added.
    pub fn try_queue(&mut self, object: ObjectEnum) -> (r: bool)
        ensures
            r == (old(self).build_queue@.len() < MAX_QUEUE_SIZE),
            final(self).build_queue@ == queued_after(old(self).build_queue@, object),
            final(self).current_build == old(self).current_build,
            final(self).current_build_progress == old(self).current_build_progress,
            final(self).rally_point == old(self).rally_point,
    {
        if self.build_queue.len() >= Self::MAX_QUEUE_SIZE {
            return false;
        }
        self.build_queue.push(object);
        true
    }

    /// Cancel the last queued item, or the current build when the queue is
    /// empty; returns what was cancelled.
    pub fn cancel_last(&mut self) -> (r: Option<ObjectEnum>)
        ensures
            (r, final(self).build_queue@, final(self).current_build) == cancel_outcome(
                old(self).build_queue@,
                old(self).current_build,
            ),
            old(self).build_queue@.len() > 0 ==> final(self).current_build_progress == old(self).current_build_progress,
            old(self).build_queue@.len() == 0 && old(self).current_build is Some
                ==> final(self).current_build_progress is None,
            old(self).build_queue@.len() == 0 && old(self).current_build is None
                ==> final(self).current_build_progress == old(self).current_build_progress,
            final(self).rally_point == old(self).rally_point,
    {
        if self.build_queue.len() > 0 {
            self.build_queue.pop()
        } else {
            match self.current_build {
                Some(cancelled) => {
                    self.current_build = None;
                    self.current_build_progress = None;
                    Some(cancelled)
                },
                None => None,
            }
        }
    }

    /// Whether anything is queued or being built.
    pub fn has_cancellable(&self) -> (r: bool)
        ensures
            r == (self.build_queue@.len() > 0 || self.current_build is Some),
    {
        self.build_queue.len() > 0 || self.current_build.is_some()
    }
}

/// Instance state of the Supply Tower.
#[derive(Clone, Debug)]
pub struct SupplyTowerState<P, L> {
    /// The chopper attached to this tower (auto-dispatched for deliveries).
    pub attached_chopper: Option<EntityId>,
    /// A non-attached chopper currently landed on the tower.
    pub landed_chopper: Option<EntityId>,
    /// The scheduled Supply Delivery Station.
    pub scheduled_sds: Option<EntityId>,
    /// Build queue (at most five entries).
    pub build_queue: Vec<ObjectEnum>,
    /// Chopper being built.
    pub current_build: Option<ObjectEnum>,
    /// Progress of the current build.
    pub current_build_progress: Option<P>,
    /// Rally point for produced choppers.
    pub rally_point: Option<RallyTarget<L>>,
}

impl<P, L> Default for SupplyTowerState<P, L> {
    fn default() -> (r: Self)
        ensures
            r.attached_chopper is None,
            r.landed_chopper is None,
            r.scheduled_sds is None,
            r.build_queue@.len() == 0,
            r.current_build is None,
            r.current_build_progress is None,
            r.rally_point is None,
    {
        SupplyTowerState {
            attached_chopper: None,
            landed_chopper: None,
            scheduled_sds: None,
            build_queue: Vec::new(),
            current_build: None,
            current_build_progress: None,
            rally_point: None,
        }
    }
}

impl<P, L> SupplyTowerState<P, L> {
    /// Maximum entries in the build queue.
    pub const MAX_QUEUE_SIZE: usize = 5;

    /// Production cost of the units the Supply Tower can produce.
    pub fn production_cost(object: &ObjectEnum) -> (r: Option<StructureCost>)
        ensures
            r == supply_tower_cost(*object),
    {
        match object {
            ObjectEnum::SupplyChopper => Some(StructureCost { space_crystals: 100, build_frames: 160 }),
            _ => None,
        }
    }

    /// Append to the build queue unless it is full; returns whether it was added.
    pub fn try_queue(&mut self, object: ObjectEnum) -> (r: bool)
        ensures
            r == (old(self).build_queue@.len() < MAX_QUEUE_SIZE),
            final(self).build_queue@ == queued_after(old(self).build_queue@, object),
            final(self).current_build == old(self).current_build,
            final(self).current_build_progress == old(self).current_build_progress,
            final(self).rally_point == old(self).rally_point,
            final(self).attached_chopper == old(self).attached_chopper,
            final(self).landed_chopper == old(self).landed_chopper,
            final(self).scheduled_sds == old(self).scheduled_sds,
    {
        if self.build_queue.len() >= Self::MAX_QUEUE_SIZE {
            return false;
        }
        self.build_queue.push(object);
        true
    }

    /// Cancel the last queued item, or the current build when the queue is
    /// empty; returns what was cancelled.
    pub fn cancel_last(&mut self) -> (r: Option<ObjectEnum>)
        ensures
            (r, final(self).build_queue@, final(self).current_build) == cancel_outcome(
                old(self).build_queue@,
                old(self).current_build,
            ),
            old(self).build_queue@.len() > 0 ==> final(self).current_build_progress == old(self).current_build_progress,
            old(self).build_queue@.len() == 0 && old(self).current_build is Some
                ==> final(self).current_build_progress is None,
            old(self).build_queue@.len() == 0 && old(self).current_build is None
                ==> final(self).current_build_progress == old(self).current_build_progress,
            final(self).rally_point == old(self).rally_point,
            final(self).attached_chopper == old(self).attached_chopper,
            final(self).landed_chopper == old(self).landed_chopper,
            final(self).scheduled_sds == old(self).scheduled_sds,
    {
        if self.build_queue.len() > 0 {
            self.build_queue.pop()
        } else {
            match self.current_build {
                Some(cancelled) => {
                    self.current_build = None;
                    self.current_build_progress = None;
                    Some(cancelled)
                },
                None => None,
            }
        }
    }

    /// Whether anything is queued or being built.
    pub fn has_cancellable(&self) -> (r: bool)
        ensures
            r == (self.build_queue@.len() > 0 || self.current_build is Some),
    {
        self.build_queue.len() > 0 || self.current_build.is_some()
    }
}

/// A queue that was not full gets back exactly what it was after an item is
/// queued and then cancelled, and the cancel returns that item.
pub proof fn law_queue_then_cancel(queue: Seq<ObjectEnum>, current: Option<ObjectEnum>, object: ObjectEnum)
    requires
        queue.len() < MAX_QUEUE_SIZE,
    ensures
        cancel_outcome(queued_after(queue, object), current) == (Some(object), queue, current),
{
    assert(queue.push(object).drop_last() =~= queue);
}

/// Queueing never grows a queue beyond the maximum size.
pub proof fn law_queue_bounded(queue: Seq<ObjectEnum>, object: ObjectEnum)
    requires
        queue.len() <= MAX_QUEUE_SIZE,
    ensures
        queued_after(queue, object).len() <= MAX_QUEUE_SIZE,
{
}

// === Extraction Facility ===

/// Instance state of the Extraction Facility.
#[derive(Clone, Copy, Debug)]
pub struct ExtractionFacilityState<P> {
    /// Whether an Extraction Plate is being constructed.
    pub current_construction: bool,
    /// Progress of the current construction.
    pub construction_progress: Option<P>,
    /// An Extraction Plate is ready to be placed.
    pub ready_to_place: bool,
}

impl<P> Default for ExtractionFacilityState<P> {
    fn default() -> (r: Self)
        ensures
            !r.current_construction,
            r.construction_progress is None,
            !r.ready_to_place,
    {
        ExtractionFacilityState { current_construction: false, construction_progress: None, ready_to_place: false }
    }
}

impl<P> ExtractionFacilityState<P> {
    /// Cost of an Extraction Plate.
    pub fn construction_cost() -> (r: StructureCost)
        ensures
            r == (StructureCost { space_crystals: 75, build_frames: 96 }),
    {
        StructureCost { space_crystals: 75, build_frames: 96 }
    }

    /// Refund for cancelling: full during construction, 75% (rounded down) when
    /// ready to place, nothing when idle.
    pub fn cancellation_refund(&self) -> (r: Option<u32>)
        ensures
            r == refund_of(75, self.ready_to_place, self.current_construction),
    {
        let cost = Self::construction_cost();
        if self.ready_to_place {
            Some((cost.space_crystals * 3) / 4)
        } else if self.current_construction {
            Some(cost.space_crystals)
        } else {
            None
        }
    }
}

// === Extraction Plate ===

/// Instance state of an Extraction Plate.
#[derive(Clone, Copy, Debug, PartialEq, Eq, Structural)]
pub struct ExtractionPlateState {
    /// The Space Crystals patch this plate mines.
    pub attached_patch: EntityId,
    /// Frames since the last mining tick.
    pub mining_timer: u32,
}

/// Space Crystals mined per tick while the patch has crystals.
pub const EXTRACTION_PLATE_MINING_RATE: u32 = 10;
/// Space Crystals mined per tick from a depleted patch.
pub const EXTRACTION_PLATE_RESIDUAL_RATE: u32 = 1;
/// Frames between mining ticks.
pub const EXTRACTION_PLATE_MINING_INTERVAL: u32 = 48;

/// Links an underground expansion to its parent Tunnel.
#[derive(Clone, Copy, Debug, PartialEq, Eq, Structural)]
pub struct TunnelExpansionMarker {
    pub parent_tunnel: EntityId,
}

/// Instance state of a Supply Chopper.
#[derive(Clone, Copy, Debug, PartialEq, Eq, Structural)]
pub struct SupplyChopperState {
    /// Supplies carried.
    pub carried_supplies: u32,
    /// The tower this chopper is attached to (auto-delivery mode).
    pub attached_tower: Option<EntityId>,
}

impl Default for SupplyChopperState {
    fn default() -> (r: Self)
        ensures
            r.carried_supplies == 0,
            r.attached_tower is None,
    {
        SupplyChopperState { carried_supplies: 0, attached_tower: None }
    }
}

// === Tunnels ===

/// Which unit bases may enter and leave a Tunnel.
#[derive(Clone, Copy, Debug, PartialEq, Eq, Structural, Hash)]
pub enum TransitTier {
    /// Infantry only.
    Tier1,
    /// Infantry and vehicles.
    Tier2,
    /// Infantry, vehicles and air units.
    Tier3,
}

/// Whether the transit tier lets the unit base through.
pub open spec fn transit_allows(tier: TransitTier, base: UnitBaseEnum) -> bool {
    match tier {
        TransitTier::Tier1 => base == UnitBaseEnum::LightInfantry || base == UnitBaseEnum::HeavyInfantry,
        TransitTier::Tier2 => base == UnitBaseEnum::LightInfantry || base == UnitBaseEnum::HeavyInfantry || base
            == UnitBaseEnum::WheeledVehicle || base == UnitBaseEnum::TrackedVehicle || base
            == UnitBaseEnum::DrillUnit || base == UnitBaseEnum::HoverVehicle || base == UnitBaseEnum::Mech,
        TransitTier::Tier3 => true,
    }
}

impl TransitTier {
    /// Whether this transit tier lets the unit base enter and exit.
    pub fn allows_unit_base(&self, base: &UnitBaseEnum) -> (r: bool)
        ensures
            r == transit_allows(*self, *base),
    {
        match self {
            TransitTier::Tier1 => match base {
                UnitBaseEnum::LightInfantry | UnitBaseEnum::HeavyInfantry => true,
                _ => false,
            },
            TransitTier::Tier2 => match base {
                UnitBaseEnum::LightInfantry
                | UnitBaseEnum::HeavyInfantry
                | UnitBaseEnum::WheeledVehicle
                | UnitBaseEnum::TrackedVehicle
                | UnitBaseEnum::DrillUnit
                | UnitBaseEnum::HoverVehicle
                | UnitBaseEnum::Mech => true,
                _ => false,
            },
            TransitTier::Tier3 => true,
        }
    }
}

/// Upgrade tiers of a Tunnel.
#[derive(Clone, Copy, Debug, PartialEq, Eq, Structural, Hash)]
pub enum TunnelTier {
    Tier1,
    Tier2,
    Tier3,
}

/// Rank of a tier (1 to 3).
pub open spec fn tier_rank(t: TunnelTier) -> int {
    match t {
        TunnelTier::Tier1 => 1,
        TunnelTier::Tier2 => 2,
        TunnelTier::Tier3 => 3,
    }
}

/// Area radius of a tier.
pub open spec fn tier_radius(t: TunnelTier) -> u32 {
    match t {
        TunnelTier::Tier1 => 3,
        TunnelTier::Tier2 => 4,
        TunnelTier::Tier3 => 5,
    }
}

/// Tunnel space a tier provides.
pub open spec fn tier_space(t: TunnelTier) -> u32 {
    match t {
        TunnelTier::Tier1 => 20,
        TunnelTier::Tier2 => 30,
        TunnelTier::Tier3 => 40,
    }
}

/// The next tier, if any.
pub open spec fn tier_next(t: TunnelTier) -> Option<TunnelTier> {
    match t {
        TunnelTier::Tier1 => Some(TunnelTier::Tier2),
        TunnelTier::Tier2 => Some(TunnelTier::Tier3),
        TunnelTier::Tier3 => None,
    }
}

/// Transit tier of a tunnel tier.
pub open spec fn tier_transit(t: TunnelTier) -> TransitTier {
    match t {
        TunnelTier::Tier1 => TransitTier::Tier1,
        TunnelTier::Tier2 => TransitTier::Tier2,
        TunnelTier::Tier3 => TransitTier::Tier3,
    }
}

impl TunnelTier {
    /// Hit points of this tier.
    pub fn max_hp(&self) -> (r: u32)
        ensures
            r == match *self {
                TunnelTier::Tier1 => 600u32,
                TunnelTier::Tier2 => 800u32,
                TunnelTier::Tier3 => 1000u32,
            },
    {
        match self {
            TunnelTier::Tier1 => syndicate_structure_stats::TUNNEL_T1_MAX_HP,
            TunnelTier::Tier2 => syndicate_structure_stats::TUNNEL_T2_MAX_HP,
            TunnelTier::Tier3 => syndicate_structure_stats::TUNNEL_T3_MAX_HP,
        }
    }

    /// Tunnel space provided by this tier.
    pub fn tunnel_space(&self) -> (r: u32)
        ensures
            r == match *self {
                TunnelTier::Tier1 => 20u32,
                TunnelTier::Tier2 => 30u32,
                TunnelTier::Tier3 => 40u32,
            },
            r == tier_space(*self),
    {
        match self {
            TunnelTier::Tier1 => syndicate_structure_stats::TUNNEL_T1_SPACE,
            TunnelTier::Tier2 => syndicate_structure_stats::TUNNEL_T2_SPACE,
            TunnelTier::Tier3 => syndicate_structure_stats::TUNNEL_T3_SPACE,
        }
    }

    /// Area radius of this tier.
    pub fn area_radius(&self) -> (r: u32)
        ensures
            r == tier_radius(*self),
    {
        match self {
            TunnelTier::Tier1 => syndicate_structure_stats::TUNNEL_T1_AREA_RADIUS,
            TunnelTier::Tier2 => syndicate_structure_stats::TUNNEL_T2_AREA_RADIUS,
            TunnelTier::Tier3 => syndicate_structure_stats::TUNNEL_T3_AREA_RADIUS,
        }
    }

    /// Transit tier of this tunnel tier.
    pub fn transit_tier(&self) -> (r: TransitTier)
        ensures
            r == tier_transit(*self),
    {
        match self {
            TunnelTier::Tier1 => TransitTier::Tier1,
            TunnelTier::Tier2 => TransitTier::Tier2,
            TunnelTier::Tier3 => TransitTier::Tier3,
        }
    }

    /// Whether a unit base may transit through a tunnel of this tier.
    pub fn can_transit(&self, base: &UnitBaseEnum) -> (r: bool)
        ensures
            r == transit_allows(tier_transit(*self), *base),
    {
        self.transit_tier().allows_unit_base(base)
    }

    /// The next upgrade tier, if any.
    pub fn next_tier(&self) -> (r: Option<TunnelTier>)
        ensures
            r == tier_next(*self),
    {
        match self {
            TunnelTier::Tier1 => Some(TunnelTier::Tier2),
            TunnelTier::Tier2 => Some(TunnelTier::Tier3),
            TunnelTier::Tier3 => None,
        }
    }
}

/// A tunnel of a higher tier lets through every unit base that a lower tier does.
pub proof fn law_transit_monotone(a: TunnelTier, b: TunnelTier, base: UnitBaseEnum)
    requires
        tier_rank(a) <= tier_rank(b),
        transit_allows(tier_transit(a), base),
    ensures
        transit_allows(tier_transit(b), base),
{
}

/// Each upgrade moves up exactly one tier and widens the area.
pub proof fn law_next_tier(t: TunnelTier)
    ensures
        tier_next(t) matches Some(n) ==> tier_rank(n) == tier_rank(t) + 1 && tier_radius(n) > tier_radius(t),
        tier_next(t) is None <==> t == TunnelTier::Tier3,
{
}

/// Operations that occupy a Tunnel's construction mutex; `P` measures progress.
#[derive(Clone, Copy, Debug, PartialEq)]
pub enum TunnelOperation<P> {
    /// Upgrading to the next tier.
    Upgrading { target_tier: TunnelTier, progress: P },
    /// Building an expansion structure.
    BuildingExpansion {
        object: ObjectEnum,
        progress: P,
        grid_x: i32,
        grid_z: i32,
        rotation: StructureRotation,
        flip_horizontal: bool,
        flip_vertical: bool,
    },
}

/// Runtime state of a Tunnel.
#[derive(Clone, Copy, Debug)]
pub struct TunnelState<P> {
    /// Current upgrade tier.
    pub tier: TunnelTier,
    /// Operation in progress, if any.
    pub current_operation: Option<TunnelOperation<P>>,
}

impl<P> TunnelState<P> {
    /// A tunnel of the given tier with no operation in progress.
    pub fn new(tier: TunnelTier) -> (r: Self)
        ensures
            r.tier == tier,
            r.current_operation is None,
    {
        TunnelState { tier, current_operation: None }
    }

    /// A newly placed tunnel: tier one, idle.
    pub fn default_tier1() -> (r: Self)
        ensures
            r.tier == TunnelTier::Tier1,
            r.current_operation is None,
    {
        Self::new(TunnelTier::Tier1)
    }

    /// Whether an operation is in progress.
    pub fn is_busy(&self) -> (r: bool)
        ensures
            r == self.current_operation is Some,
    {
        self.current_operation.is_some()
    }
}

/// The cells of a tunnel area: the 4x4 footprint at the origin, widened by
/// `radius` cells on every side.
pub open spec fn tunnel_area_set(origin_x: int, origin_z: int, radius: int) -> Set<(i32, i32)> {
    Set::new(
        |c: (i32, i32)|
            origin_x - radius <= c.0 < origin_x + 4 + radius && origin_z - radius <= c.1 < origin_z + 4 + radius,
    )
}

/// The rectangle of cells `x0..x1` by `z0..z1`.
pub open spec fn rect_cells(x0: int, x1: int, z0: int, z1: int) -> Set<(i32, i32)> {
    Set::new(|c: (i32, i32)| x0 <= c.0 < x1 && z0 <= c.1 < z1)
}

/// Cells of a tunnel area: the footprint `origin..origin+4` on both axes
/// widened by `radius`, so `2*radius + 4` cells per side.
pub fn compute_tunnel_area_cells(origin_x: i32, origin_z: i32, radius: u32) -> (r: CellSet)
    requires
        origin_x as int - radius as int >= i32::MIN,
        origin_z as int - radius as int >= i32::MIN,
        origin_x as int + 4 + radius as int <= i32::MAX,
        origin_z as int + 4 + radius as int <= i32::MAX,
    ensures
        r@ == tunnel_area_set(origin_x as int, origin_z as int, radius as int),
        r@.len() == (2 * radius + 4) * (2 * radius + 4),
{
    let rr = radius as i32;
    let x0 = origin_x - rr;
    let x1 = origin_x + 4 + rr;
    let z0 = origin_z - rr;
    let z1 = origin_z + 4 + rr;
    let ghost side: int = 2 * radius + 4;
    let mut cells = CellSet::new();
    let mut x = x0;
    proof {
        assert(cells@ =~= rect_cells(x0 as int, x0 as int, z0 as int, z1 as int));
        assert(0 * side == 0) by (nonlinear_arith);
    }
    while x < x1
        invariant
            x0 <= x <= x1,
            x1 == origin_x + 4 + rr,
            x0 == origin_x - rr,
            z0 == origin_z - rr,
            z1 == origin_z + 4 + rr,
            rr == radius,
            side == 2 * radius + 4,
            z1 - z0 == side,
            cells@ == rect_cells(x0 as int, x as int, z0 as int, z1 as int),
            cells@.finite(),
            cells@.len() == (x - x0) * side,
        decreases x1 - x,
    {
        let mut z = z0;
        while z < z1
            invariant
                x0 <= x < x1,
                z0 <= z <= z1,
                z1 - z0 == side,
                cells@ == rect_cells(x0 as int, x as int, z0 as int, z1 as int).union(
                    rect_cells(x as int, x + 1, z0 as int, z as int),
                ),
                cells@.finite(),
                cells@.len() == (x - x0) * side + (z - z0),
            decreases z1 - z,
        {
            let ghost before = cells@;
            let _ = cells.count();
            let added = cells.insert((x, z));
            proof {
                assert(!before.contains((x, z)));
                assert(cells@ =~= rect_cells(x0 as int, x as int, z0 as int, z1 as int).union(
                    rect_cells(x as int, x + 1, z0 as int, z + 1),
                ));
            }
            z = z + 1;
        }
        let _ = cells.count();
        proof {
            assert(cells@ =~= rect_cells(x0 as int, x + 1, z0 as int, z1 as int));
            assert((x - x0) * side + side == (x + 1 - x0) * side) by (nonlinear_arith);
        }
        x = x + 1;
    }
    proof {
        assert(cells@ =~= tunnel_area_set(origin_x as int, origin_z as int, radius as int));
    }
    cells
}

/// Underground build zone of a Tunnel.
#[derive(Clone, Debug)]
pub struct TunnelArea {
    /// Top-left grid coordinate of the 4x4 Tunnel footprint.
    pub origin_x: i32,
    pub origin_z: i32,
    /// Underground cells of the build zone.
    pub cells: CellSet,
}

/// The origin is far enough from the edges of `i32` for every tier's area.
pub open spec fn area_origin_ok(origin_x: i32, origin_z: i32) -> bool {
    &&& origin_x as int - 5 >= i32::MIN
    &&& origin_z as int - 5 >= i32::MIN
    &&& origin_x as int + 9 <= i32::MAX
    &&& origin_z as int + 9 <= i32::MAX
}

impl TunnelArea {
    /// The area of a tunnel of the given tier whose footprint starts at the origin.
    pub fn new(origin_x: i32, origin_z: i32, tier: &TunnelTier) -> (r: Self)
        requires
            area_origin_ok(origin_x, origin_z),
        ensures
            r.origin_x == origin_x,
            r.origin_z == origin_z,
            r.cells@ == tunnel_area_set(origin_x as int, origin_z as int, tier_radius(*tier) as int),
    {
        let cells = compute_tunnel_area_cells(origin_x, origin_z, tier.area_radius());
        TunnelArea { origin_x, origin_z, cells }
    }

    /// Recompute the cells after a tier change.
    pub fn recalculate(&mut self, tier: &TunnelTier)
        requires
            area_origin_ok(old(self).origin_x, old(self).origin_z),
        ensures
            final(self).origin_x == old(self).origin_x,
            final(self).origin_z == old(self).origin_z,
            final(self).cells@ == tunnel_area_set(
                old(self).origin_x as int,
                old(self).origin_z as int,
                tier_radius(*tier) as int,
            ),
    {
        self.cells = compute_tunnel_area_cells(self.origin_x, self.origin_z, tier.area_radius());
    }

    /// Whether the cell belongs to the area.
    pub fn contains(&self, x: i32, z: i32) -> (r: bool)
        ensures
            r == self.cells@.contains((x, z)),
    {
        self.cells.contains(&(x, z))
    }

    /// Whether the two areas share a cell.
    pub fn overlaps(&self, other: &TunnelArea) -> (r: bool)
        ensures
            r == exists|c: (i32, i32)| self.cells@.contains(c) && #[trigger] other.cells@.contains(c),
    {
        let n = self.cells.count();
        let mut i: usize = 0;
        while i < n
            invariant
                n == self.cells.seq().len(),
                forall|c: (i32, i32)| #[trigger] self.cells@.contains(c) <==> self.cells.seq().contains(c),
                0 <= i <= n,
                forall|j: int| 0 <= j < i ==> !other.cells@.contains(#[trigger] self.cells.seq()[j]),
            decreases n - i,
        {
            let c = self.cells.get(i);
            if other.cells.contains(&c) {
                proof {
                    assert(self.cells.seq().contains(c));
                }
                return true;
            }
            i = i + 1;
        }
        proof {
            assert forall|c: (i32, i32)| self.cells@.contains(c) implies !#[trigger] other.cells@.contains(c) by {
                assert(self.cells.seq().contains(c));
                let j = choose|j: int| 0 <= j < n && self.cells.seq()[j] == c;
            }
        }
        false
    }

    /// Whether every cell of a `size_x` by `size_z` footprint at `(pos_x, pos_z)`
    /// lies in the area.
    pub fn fits_expansion(&self, pos_x: i32, pos_z: i32, size_x: u32, size_z: u32) -> (r: bool)
        requires
            size_x <= i32::MAX,
            size_z <= i32::MAX,
            pos_x as int + size_x as int <= i32::MAX + 1,
            pos_z as int + size_z as int <= i32::MAX + 1,
        ensures
            r == forall|x: i32, z: i32|
                pos_x <= x < pos_x + size_x && pos_z <= z < pos_z + size_z ==> #[trigger] self.cells@.contains(
                    (x, z),
                ),
    {
        let sx = size_x as i32;
        let sz = size_z as i32;
        let mut dx: i32 = 0;
        while dx < sx
            invariant
                sx == size_x,
                sz == size_z,
                0 <= dx <= sx,
                pos_x as int + size_x as int <= i32::MAX + 1,
                pos_z as int + size_z as int <= i32::MAX + 1,
                forall|x: i32, z: i32|
                    pos_x <= x < pos_x + dx && pos_z <= z < pos_z + size_z ==> #[trigger] self.cells@.contains(
                        (x, z),
                    ),
            decreases sx - dx,
        {
            let mut dz: i32 = 0;
            while dz < sz
                invariant
                    sx == size_x,
                    sz == size_z,
                    0 <= dx < sx,
                    0 <= dz <= sz,
                    pos_x as int + size_x as int <= i32::MAX + 1,
                    pos_z as int + size_z as int <= i32::MAX + 1,
                    forall|x: i32, z: i32|
                        pos_x <= x < pos_x + dx && pos_z <= z < pos_z + size_z ==> #[trigger] self.cells@.contains(
                            (x, z),
                        ),
                    forall|z: i32| pos_z <= z < pos_z + dz ==> #[trigger] self.cells@.contains(((pos_x + dx) as i32, z)),
                decreases sz - dz,
            {
                if !self.contains(pos_x + dx, pos_z + dz) {
                    return false;
                }
                dz = dz + 1;
            }
            proof {
                assert forall|x: i32, z: i32|
                    pos_x <= x < pos_x + dx + 1 && pos_z <= z < pos_z + size_z implies #[trigger] self.cells@.contains(
                        (x, z),
                    ) by {
                    if x == pos_x + dx {
                        assert(self.cells@.contains(((pos_x + dx) as i32, z)));
                    }
                }
            }
            dx = dx + 1;
        }
        true
    }
}

/// Supplies needed for the next Tunnel: one per Tunnel already owned.
pub fn tunnel_construction_cost(existing_tunnel_count: u32) -> (r: u32)
    ensures
        r == existing_tunnel_count,
{
    existing_tunnel_count
}

/// Supplies needed to upgrade to tier two: `2 + 2 * n` for `n` tunnels already
/// at tier two or above.
pub fn tunnel_t2_upgrade_cost(existing_t2_plus_count: u32) -> (r: u32)
    requires
        2 + 2 * existing_t2_plus_count <= u32::MAX,
    ensures
        r == 2 + 2 * existing_t2_plus_count,
{
    2 + 2 * existing_t2_plus_count
}

/// Supplies needed to upgrade to tier three: `3 + 3 * n` for `n` tunnels
/// already at tier three.
pub fn tunnel_t3_upgrade_cost(existing_t3_count: u32) -> (r: u32)
    requires
        3 + 3 * existing_t3_count <= u32::MAX,
    ensures
        r == 3 + 3 * existing_t3_count,
{
    3 + 3 * existing_t3_count
}

/// Number of other tunnels (not `me`) whose tier is at least `rank`.
pub open spec fn count_others_at_least<P>(
    all: Seq<(EntityId, &TunnelArea, &TunnelState<P>)>,
    me: EntityId,
    rank: int,
) -> nat
    decreases all.len(),
{
    if all.len() == 0 {
        0
    } else {
        count_others_at_least(all.drop_last(), me, rank) + if all.last().0 != me && tier_rank(all.last().2.tier)
            >= rank {
            1nat
        } else {
            0nat
        }
    }
}

proof fn lemma_count_le<P>(all: Seq<(EntityId, &TunnelArea, &TunnelState<P>)>, me: EntityId, rank: int)
    ensures
        count_others_at_least(all, me, rank) <= all.len(),
    decreases all.len(),
{
    if all.len() > 0 {
        lemma_count_le(all.drop_last(), me, rank);
    }
}

/// Supplies an upgrade to the target tier costs, given the other tunnels.
pub open spec fn upgrade_cost<P>(
    target: TunnelTier,
    all: Seq<(EntityId, &TunnelArea, &TunnelState<P>)>,
    me: EntityId,
) -> int {
    if target == TunnelTier::Tier3 {
        3 + 3 * count_others_at_least(all, me, 3) as int
    } else {
        2 + 2 * count_others_at_least(all, me, 2) as int
    }
}

/// Some other tunnel's area shares a cell with the given area.
pub open spec fn overlaps_other<P>(
    area: Set<(i32, i32)>,
    all: Seq<(EntityId, &TunnelArea, &TunnelState<P>)>,
    me: EntityId,
) -> bool {
    exists|i: int, c: (i32, i32)|
        0 <= i < all.len() && all[i].0 != me && area.contains(c) && #[trigger] all[i].1.cells@.contains(c)
}


/// Check whether a tunnel may be upgraded: it is below the top tier, idle, the
/// player has the supplies, and the wider area of the next tier would not
/// overlap another tunnel's area. Returns the cost in supplies, or the reason.
pub fn validate_tunnel_upgrade<P>(
    tunnel_entity: EntityId,
    tunnel_state: &TunnelState<P>,
    tunnel_area: &TunnelArea,
    available_supplies: i32,
    all_tunnels: &[(EntityId, &TunnelArea, &TunnelState<P>)],
) -> (r: Result<u32, &'static str>)
    requires
        area_origin_ok(tunnel_area.origin_x, tunnel_area.origin_z),
        all_tunnels@.len() <= 1_431_655_764,
    ensures
        tunnel_state.tier == TunnelTier::Tier3 ==> r == Err::<u32, &'static str>(
            "Tunnel is already at maximum tier",
        ),
        tunnel_state.tier != TunnelTier::Tier3 && tunnel_state.current_operation is Some ==> r == Err::<
            u32,
            &'static str,
        >("Tunnel already has an operation in progress"),
        ({
            let target = tier_next(tunnel_state.tier)->0;
            let cost = upgrade_cost(target, all_tunnels@, tunnel_entity);
            let hypothetical = tunnel_area_set(
                tunnel_area.origin_x as int,
                tunnel_area.origin_z as int,
                tier_radius(target) as int,
            );
            tunnel_state.tier != TunnelTier::Tier3 && tunnel_state.current_operation is None ==> {
                &&& (available_supplies as u32) < cost ==> r == Err::<u32, &'static str>(
                    "Insufficient supplies for upgrade",
                )
                &&& (available_supplies as u32) >= cost && overlaps_other(hypothetical, all_tunnels@, tunnel_entity)
                    ==> r == Err::<u32, &'static str>("Upgrade would cause area overlap with another Tunnel")
                &&& (available_supplies as u32) >= cost && !overlaps_other(
                    hypothetical,
                    all_tunnels@,
                    tunnel_entity,
                ) ==> r == Ok::<u32, &'static str>(cost as u32)
            }
        }),
{
    let target_tier = match tunnel_state.tier.next_tier() {
        Some(t) => t,
        None => {
            return Err("Tunnel is already at maximum tier");
        },
    };
    if tunnel_state.is_busy() {
        return Err("Tunnel already has an operation in progress");
    }
    let min_rank: u32 = if target_tier == TunnelTier::Tier3 {
        3
    } else {
        2
    };
    let n = all_tunnels.len();
    let mut count: u32 = 0;
    let mut i: usize = 0;
    while i < n
        invariant
            n == all_tunnels@.len(),
            n <= 1_431_655_764,
            0 <= i <= n,
            count == count_others_at_least(all_tunnels@.subrange(0, i as int), tunnel_entity, min_rank as int),
            count <= i,
        decreases n - i,
    {
        let (e, _, s) = all_tunnels[i];
        let rank: u32 = match s.tier {
            TunnelTier::Tier1 => 1,
            TunnelTier::Tier2 => 2,
            TunnelTier::Tier3 => 3,
        };
        proof {
            assert(all_tunnels@.subrange(0, i + 1).drop_last() =~= all_tunnels@.subrange(0, i as int));
        }
        if e != tunnel_entity && rank >= min_rank {
            count = count + 1;
        }
        i = i + 1;
    }
    proof {
        assert(all_tunnels@.subrange(0, n as int) =~= all_tunnels@);
    }
    let cost = if target_tier == TunnelTier::Tier3 {
        tunnel_t3_upgrade_cost(count)
    } else {
        tunnel_t2_upgrade_cost(count)
    };
    if (available_supplies as u32) < cost {
        return Err("Insufficient supplies for upgrade");
    }
    let radius = target_tier.area_radius() as i32;
    let ox = tunnel_area.origin_x;
    let oz = tunnel_area.origin_z;
    let ghost hypothetical = tunnel_area_set(ox as int, oz as int, radius as int);
    let mut k: usize = 0;
    while k < n
        invariant
            n == all_tunnels@.len(),
            0 <= k <= n,
            radius == tier_radius(target_tier),
            ox == tunnel_area.origin_x,
            oz == tunnel_area.origin_z,
            hypothetical == tunnel_area_set(ox as int, oz as int, radius as int),
            area_origin_ok(ox, oz),
            tunnel_state.current_operation is None,
            tunnel_state.tier != TunnelTier::Tier3,
            target_tier == tier_next(tunnel_state.tier)->0,
            cost == upgrade_cost(target_tier, all_tunnels@, tunnel_entity),
            (available_supplies as u32) >= cost,
            forall|i: int, c: (i32, i32)|
                0 <= i < k && all_tunnels@[i].0 != tunnel_entity && hypothetical.contains(c)
                    ==> !#[trigger] all_tunnels@[i].1.cells@.contains(c),
        decreases n - k,
    {
        let (e, other, _) = all_tunnels[k];
        if e != tunnel_entity {
            let m = other.cells.count();
            let mut j: usize = 0;
            while j < m
                invariant
                    m == other.cells.seq().len(),
                    forall|c: (i32, i32)| #[trigger] other.cells@.contains(c) <==> other.cells.seq().contains(c),
                    0 <= j <= m,
                    radius == tier_radius(target_tier),
                    hypothetical == tunnel_area_set(ox as int, oz as int, radius as int),
                    area_origin_ok(ox, oz),
                    0 <= k < n,
                    ox == tunnel_area.origin_x,
                    oz == tunnel_area.origin_z,
                    n == all_tunnels@.len(),
                    other == all_tunnels@[k as int].1,
                    e == all_tunnels@[k as int].0,
                    e != tunnel_entity,
                    tunnel_state.current_operation is None,
                    tunnel_state.tier != TunnelTier::Tier3,
                    target_tier == tier_next(tunnel_state.tier)->0,
                    cost == upgrade_cost(target_tier, all_tunnels@, tunnel_entity),
                    (available_supplies as u32) >= cost,
                    forall|jj: int| 0 <= jj < j ==> !hypothetical.contains(#[trigger] other.cells.seq()[jj]),
                decreases m - j,
            {
                let c = other.cells.get(j);
                let inside = ox - radius <= c.0 && c.0 < ox + 4 + radius && oz - radius <= c.1 && c.1 < oz + 4
                    + radius;
                if inside {
                    proof {
                        assert(hypothetical.contains(c));
                        assert(other.cells.seq().contains(c));
                        assert(all_tunnels@[k as int].1.cells@.contains(c));
                        assert(overlaps_other(hypothetical, all_tunnels@, tunnel_entity));
                    }
                    return Err("Upgrade would cause area overlap with another Tunnel");
                }
                j = j + 1;
            }
            proof {
                assert forall|c: (i32, i32)| hypothetical.contains(c) implies !#[trigger] other.cells@.contains(c) by {
                    if other.cells@.contains(c) {
                        assert(other.cells.seq().contains(c));
                        let jj = choose|jj: int| 0 <= jj < m && other.cells.seq()[jj] == c;
                    }
                }
            }
        }
        k = k + 1;
    }
    Ok(cost)
}

} // verus!
