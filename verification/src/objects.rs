//! Object kinds of the game and the identifiers the rules refer to them by.
use vstd::prelude::*;

verus! {

/// Identifier of a game entity (a unit, a structure, a resource patch).
pub type EntityId = u64;

/// Every kind of object on the map: structures, units and resources.
#[derive(Clone, Copy, Debug, PartialEq, Eq, Structural, Hash)]
pub enum ObjectEnum {
    DeploymentCenter,
    PowerPlant,
    Barracks,
    ExtractionFacility,
    ExtractionPlate,
    SupplyTower,
    SupplyDeliveryStation,
    RecruitmentCenter,
    CultsArmory,
    Tunnel,
    Headquarters,
    Peacekeeper,
    SupplyChopper,
    SyndicateAgent,
    SyndicateGuard,
    CultsRecruit,
    SpaceCrystalsPatch,
}

/// Rotation of a structure footprint, in quarter turns.
#[derive(Clone, Copy, Debug, PartialEq, Eq, Structural, Hash)]
pub enum StructureRotation {
    R0,
    R90,
    R180,
    R270,
}

/// Units among the object kinds.
pub open spec fn unit_kind(o: ObjectEnum) -> bool {
    o == ObjectEnum::Peacekeeper || o == ObjectEnum::SupplyChopper || o == ObjectEnum::SyndicateAgent || o
        == ObjectEnum::SyndicateGuard || o == ObjectEnum::CultsRecruit
}

/// Neutral resources among the object kinds: crystal patches and supply delivery stations.
pub open spec fn resource_kind(o: ObjectEnum) -> bool {
    o == ObjectEnum::SpaceCrystalsPatch || o == ObjectEnum::SupplyDeliveryStation
}

impl ObjectEnum {
    /// Whether the object is a unit.
    pub fn is_unit(&self) -> (r: bool)
        ensures
            r == unit_kind(*self),
    {
        match self {
            ObjectEnum::Peacekeeper
            | ObjectEnum::SupplyChopper
            | ObjectEnum::SyndicateAgent
            | ObjectEnum::SyndicateGuard
            | ObjectEnum::CultsRecruit => true,
            _ => false,
        }
    }

    /// Whether the object is a neutral resource.
    pub fn is_resource(&self) -> (r: bool)
        ensures
            r == resource_kind(*self),
    {
        match self {
            ObjectEnum::SpaceCrystalsPatch | ObjectEnum::SupplyDeliveryStation => true,
            _ => false,
        }
    }

    /// Whether the object is a structure: neither a unit nor a resource.
    pub fn is_structure(&self) -> (r: bool)
        ensures
            r == (!unit_kind(*self) && !resource_kind(*self)),
    {
        !self.is_unit() && !self.is_resource()
    }
}

} // verus!
