//! Unit base archetypes and their static attributes.
use vstd::prelude::*;

verus! {

/// Operating domain of a unit.
#[derive(Clone, Copy, Debug, PartialEq, Eq, Structural, Hash)]
pub enum DomainEnum {
    Ground,
    Underground,
    Air,
}

/// Movement model that drives a unit base.
#[derive(Clone, Copy, Debug, PartialEq, Eq, Structural, Hash)]
pub enum MovementModelEnum {
    TurnRate,
    FixedTurnRadius,
    SpeedTurnRadius,
    Drag,
    Glider,
}

/// The nine unit base archetypes.
#[derive(Clone, Copy, Debug, PartialEq, Eq, Structural, Hash)]
pub enum UnitBaseEnum {
    LightInfantry,
    HeavyInfantry,
    WheeledVehicle,
    TrackedVehicle,
    DrillUnit,
    HoverVehicle,
    Mech,
    HoverCraft,
    Glider,
}

/// Static data for a unit base archetype.
#[derive(Clone, Copy, Debug, PartialEq, Eq, Structural)]
pub struct UnitBaseData {
    pub domain: DomainEnum,
    pub has_turret: bool,
    pub directional_armor: bool,
    pub rugged_terrain: bool,
    pub crushable: bool,
    pub can_crush: bool,
    pub can_turn_in_place: bool,
    pub can_reverse: bool,
    pub movement_model: MovementModelEnum,
}

/// Builds a `UnitBaseData` value in spec code.
pub open spec fn base_data(
    domain: DomainEnum,
    has_turret: bool,
    directional_armor: bool,
    rugged_terrain: bool,
    crushable: bool,
    can_crush: bool,
    can_turn_in_place: bool,
    can_reverse: bool,
    movement_model: MovementModelEnum,
) -> UnitBaseData {
    UnitBaseData {
        domain,
        has_turret,
        directional_armor,
        rugged_terrain,
        crushable,
        can_crush,
        can_turn_in_place,
        can_reverse,
        movement_model,
    }
}

/// The archetype table: the attributes of each unit base.
pub open spec fn unit_base_table(b: UnitBaseEnum) -> UnitBaseData {
    match b {
        UnitBaseEnum::LightInfantry => base_data(DomainEnum::Ground, false, false, true, true, false, true, false, MovementModelEnum::TurnRate),
        UnitBaseEnum::HeavyInfantry => base_data(DomainEnum::Ground, false, false, true, false, false, true, false, MovementModelEnum::TurnRate),
        UnitBaseEnum::WheeledVehicle => base_data(DomainEnum::Ground, true, true, false, false, false, false, true, MovementModelEnum::FixedTurnRadius),
        UnitBaseEnum::TrackedVehicle => base_data(DomainEnum::Ground, true, true, false, false, true, true, true, MovementModelEnum::SpeedTurnRadius),
        UnitBaseEnum::DrillUnit => base_data(DomainEnum::Underground, true, true, false, false, false, true, true, MovementModelEnum::SpeedTurnRadius),
        UnitBaseEnum::HoverVehicle => base_data(DomainEnum::Ground, true, true, false, false, false, true, false, MovementModelEnum::Drag),
        UnitBaseEnum::Mech => base_data(DomainEnum::Ground, true, true, true, false, true, true, false, MovementModelEnum::TurnRate),
        UnitBaseEnum::HoverCraft => base_data(DomainEnum::Air, true, false, false, false, false, true, false, MovementModelEnum::Drag),
        UnitBaseEnum::Glider => base_data(DomainEnum::Air, true, false, false, false, false, false, false, MovementModelEnum::Glider),
    }
}

/// Display name of a unit base.
pub open spec fn unit_base_name(b: UnitBaseEnum) -> Seq<char> {
    match b {
        UnitBaseEnum::LightInfantry => "Light Infantry"@,
        UnitBaseEnum::HeavyInfantry => "Heavy Infantry"@,
        UnitBaseEnum::WheeledVehicle => "Wheeled Vehicle"@,
        UnitBaseEnum::TrackedVehicle => "Tracked Vehicle"@,
        UnitBaseEnum::DrillUnit => "Drill Unit"@,
        UnitBaseEnum::HoverVehicle => "Hover Vehicle"@,
        UnitBaseEnum::Mech => "Mech"@,
        UnitBaseEnum::HoverCraft => "Hovercraft"@,
        UnitBaseEnum::Glider => "Glider"@,
    }
}

impl UnitBaseEnum {
    /// Get the static attributes for this unit base type.
    pub fn data(&self) -> (d: UnitBaseData)
        ensures
            d == unit_base_table(*self),
    {
        match self {
            UnitBaseEnum::LightInfantry => UnitBaseData {
                domain: DomainEnum::Ground,
                has_turret: false,
                directional_armor: false,
                rugged_terrain: true,
                crushable: true,
                can_crush: false,
                can_turn_in_place: true,
                can_reverse: false,
                movement_model: MovementModelEnum::TurnRate,
            },
            UnitBaseEnum::HeavyInfantry => UnitBaseData {
                domain: DomainEnum::Ground,
                has_turret: false,
                directional_armor: false,
                rugged_terrain: true,
                crushable: false,
                can_crush: false,
                can_turn_in_place: true,
                can_reverse: false,
                movement_model: MovementModelEnum::TurnRate,
            },
            UnitBaseEnum::WheeledVehicle => UnitBaseData {
                domain: DomainEnum::Ground,
                has_turret: true,
                directional_armor: true,
                rugged_terrain: false,
                crushable: false,
                can_crush: false,
                can_turn_in_place: false,
                can_reverse: true,
                movement_model: MovementModelEnum::FixedTurnRadius,
            },
            UnitBaseEnum::TrackedVehicle => UnitBaseData {
                domain: DomainEnum::Ground,
                has_turret: true,
                directional_armor: true,
                rugged_terrain: false,
                crushable: false,
                can_crush: true,
                can_turn_in_place: true,
                can_reverse: true,
                movement_model: MovementModelEnum::SpeedTurnRadius,
            },
            UnitBaseEnum::DrillUnit => UnitBaseData {
                domain: DomainEnum::Underground,
                has_turret: true,
                directional_armor: true,
                rugged_terrain: false,
                crushable: false,
                can_crush: false,
                can_turn_in_place: true,
                can_reverse: true,
                movement_model: MovementModelEnum::SpeedTurnRadius,
            },
            UnitBaseEnum::HoverVehicle => UnitBaseData {
                domain: DomainEnum::Ground,
                has_turret: true,
                directional_armor: true,
                rugged_terrain: false,
                crushable: false,
                can_crush: false,
                can_turn_in_place: true,
                can_reverse: false,
                movement_model: MovementModelEnum::Drag,
            },
            UnitBaseEnum::Mech => UnitBaseData {
                domain: DomainEnum::Ground,
                has_turret: true,
                directional_armor: true,
                rugged_terrain: true,
                crushable: false,
                can_crush: true,
                can_turn_in_place: true,
                can_reverse: false,
                movement_model: MovementModelEnum::TurnRate,
            },
            UnitBaseEnum::HoverCraft => UnitBaseData {
                domain: DomainEnum::Air,
                has_turret: true,
                directional_armor: false,
                rugged_terrain: false,
                crushable: false,
                can_crush: false,
                can_turn_in_place: true,
                can_reverse: false,
                movement_model: MovementModelEnum::Drag,
            },
            UnitBaseEnum::Glider => UnitBaseData {
                domain: DomainEnum::Air,
                has_turret: true,
                directional_armor: false,
                rugged_terrain: false,
                crushable: false,
                can_crush: false,
                can_turn_in_place: false,
                can_reverse: false,
                movement_model: MovementModelEnum::Glider,
            },
        }
    }

    /// Check if this base type can traverse rugged terrain.
    pub fn can_traverse_rugged(&self) -> (r: bool)
        ensures
            r == unit_base_table(*self).rugged_terrain,
    {
        self.data().rugged_terrain
    }

    /// Check if this base type can traverse drillable terrain (underground domain only).
    pub fn can_traverse_drillable(&self) -> (r: bool)
        ensures
            r == (unit_base_table(*self).domain == DomainEnum::Underground),
    {
        let d = self.data();
        match d.domain {
            DomainEnum::Underground => true,
            _ => false,
        }
    }

    /// Get a display name for this unit base type.
    pub fn display_name(&self) -> (r: &'static str)
        ensures
            r@ == unit_base_name(*self),
    {
        match self {
            UnitBaseEnum::LightInfantry => "Light Infantry",
            UnitBaseEnum::HeavyInfantry => "Heavy Infantry",
            UnitBaseEnum::WheeledVehicle => "Wheeled Vehicle",
            UnitBaseEnum::TrackedVehicle => "Tracked Vehicle",
            UnitBaseEnum::DrillUnit => "Drill Unit",
            UnitBaseEnum::HoverVehicle => "Hover Vehicle",
            UnitBaseEnum::Mech => "Mech",
            UnitBaseEnum::HoverCraft => "Hovercraft",
            UnitBaseEnum::Glider => "Glider",
        }
    }
}

} // verus!
