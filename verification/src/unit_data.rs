//! Static data of the unit types: the GDO Peacekeeper and the Syndicate Agent
//! and Guard, with their attacks, costs and timings.
use vstd::prelude::*;
use crate::combat::{AttackTypeEnum, FullyConnectedSubtype, TargetDomainEnum, TargetTypeEnum};
use crate::units::UnitBaseEnum;

verus! {

/// The factions.
#[derive(Clone, Copy, Debug, PartialEq, Eq, Structural, Hash)]
pub enum FactionEnum {
    GlobalDefenseOrdinance,
    TheSyndicate,
}

/// Static data of a unit type.
#[derive(Clone, Copy, Debug, PartialEq, Eq, Structural)]
pub struct UnitTypeData {
    pub faction: FactionEnum,
    pub silhouette_width: u32,
    pub silhouette_height: u32,
    pub max_hp: u32,
    pub point_armor: u32,
    pub full_armor: u32,
    pub unit_base: UnitBaseEnum,
}

/// How a unit attacks; `F` measures projectile speed.
#[derive(Clone, Copy, Debug, PartialEq)]
pub struct AttackAttributesData<F> {
    pub attack_type: AttackTypeEnum,
    /// Subtype of a fully connected attack.
    pub fc_subtype: Option<FullyConnectedSubtype>,
    pub target_domain: TargetDomainEnum,
    pub target_type: TargetTypeEnum,
    /// Area of effect radius in grid units.
    pub aoe_radius: Option<u32>,
    /// Damage per hit.
    pub damage: u32,
    /// Longest attack range in grid units.
    pub range: u32,
    /// Shortest attack range in grid units.
    pub min_range: u32,
    /// Projectile speed, for projectile attacks.
    pub projectile_speed: Option<F>,
    /// Frames spent aiming before firing.
    pub aim_duration: u32,
    /// Frames of firing.
    pub firing_duration: u32,
    /// Frames of cooldown after firing.
    pub cooldown_duration: u32,
    /// Frames of reload after cooldown.
    pub reload_duration: u32,
}

/// Unit control a unit costs.
#[derive(Clone, Copy, Debug, PartialEq, Eq, Structural)]
pub struct UnitControlCost(pub u32);

/// Tunnel space a Syndicate unit takes inside the network.
#[derive(Clone, Copy, Debug, PartialEq, Eq, Structural)]
pub struct TunnelSpaceCost(pub u32);

/// Peacekeeper: a GDO light infantry unit.
pub fn peacekeeper_type_data() -> (r: UnitTypeData)
    ensures
        r == (UnitTypeData {
            faction: FactionEnum::GlobalDefenseOrdinance,
            silhouette_width: 24,
            silhouette_height: 24,
            max_hp: 50,
            point_armor: 1,
            full_armor: 1,
            unit_base: UnitBaseEnum::LightInfantry,
        }),
{
    UnitTypeData {
        faction: FactionEnum::GlobalDefenseOrdinance,
        silhouette_width: 24,
        silhouette_height: 24,
        max_hp: 50,
        point_armor: 1,
        full_armor: 1,
        unit_base: UnitBaseEnum::LightInfantry,
    }
}

/// Peacekeeper attack: instant ranged hit on ground targets.
pub fn peacekeeper_attack_data<F>() -> (r: AttackAttributesData<F>)
    ensures
        r.attack_type == AttackTypeEnum::FullyConnected,
        r.fc_subtype == Some(FullyConnectedSubtype::Ranged),
        r.target_domain == TargetDomainEnum::Ground,
        r.target_type == TargetTypeEnum::SingleTarget,
        r.aoe_radius is None,
        r.damage == 10,
        r.range == 4,
        r.min_range == 0,
        r.projectile_speed is None,
        r.aim_duration == 2,
        r.firing_duration == 1,
        r.cooldown_duration == 2,
        r.reload_duration == 12,
{
    AttackAttributesData {
        attack_type: AttackTypeEnum::FullyConnected,
        fc_subtype: Some(FullyConnectedSubtype::Ranged),
        target_domain: TargetDomainEnum::Ground,
        target_type: TargetTypeEnum::SingleTarget,
        aoe_radius: None,
        damage: 10,
        range: 4,
        min_range: 0,
        projectile_speed: None,
        aim_duration: 2,
        firing_duration: 1,
        cooldown_duration: 2,
        reload_duration: 12,
    }
}

/// Unit control of a Peacekeeper.
pub const PEACEKEEPER_CONTROL_COST: u32 = 1;

/// Syndicate Agent: a heavy infantry worker that fights in melee.
pub fn agent_type_data() -> (r: UnitTypeData)
    ensures
        r == (UnitTypeData {
            faction: FactionEnum::TheSyndicate,
            silhouette_width: 36,
            silhouette_height: 36,
            max_hp: 75,
            point_armor: 1,
            full_armor: 1,
            unit_base: UnitBaseEnum::HeavyInfantry,
        }),
{
    UnitTypeData {
        faction: FactionEnum::TheSyndicate,
        silhouette_width: 36,
        silhouette_height: 36,
        max_hp: 75,
        point_armor: 1,
        full_armor: 1,
        unit_base: UnitBaseEnum::HeavyInfantry,
    }
}

/// Agent attack: instant melee hit on ground targets.
pub fn agent_attack_data<F>() -> (r: AttackAttributesData<F>)
    ensures
        r.attack_type == AttackTypeEnum::FullyConnected,
        r.fc_subtype == Some(FullyConnectedSubtype::Melee),
        r.target_domain == TargetDomainEnum::Ground,
        r.target_type == TargetTypeEnum::SingleTarget,
        r.aoe_radius is None,
        r.damage == 6,
        r.range == 0,
        r.min_range == 0,
        r.projectile_speed is None,
        r.aim_duration == 2,
        r.firing_duration == 4,
        r.cooldown_duration == 1,
        r.reload_duration == 9,
{
    AttackAttributesData {
        attack_type: AttackTypeEnum::FullyConnected,
        fc_subtype: Some(FullyConnectedSubtype::Melee),
        target_domain: TargetDomainEnum::Ground,
        target_type: TargetTypeEnum::SingleTarget,
        aoe_radius: None,
        damage: 6,
        range: 0,
        min_range: 0,
        projectile_speed: None,
        aim_duration: 2,
        firing_duration: 4,
        cooldown_duration: 1,
        reload_duration: 9,
    }
}

/// Frames an Agent mines at a crystal patch.
pub const AGENT_MINING_DURATION: u32 = 48;
/// Frames an Agent picks up supplies at a delivery station.
pub const AGENT_PICKUP_DURATION: u32 = 48;
/// Frames an Agent drops off at a tunnel side.
pub const AGENT_DROPOFF_DURATION: u32 = 48;
/// Space Crystals an Agent carries per gathering trip.
pub const AGENT_CRYSTAL_CARRY: u32 = 50;
/// Supplies an Agent carries per trip.
pub const AGENT_SUPPLY_CARRY: u32 = 1;
/// Unit control of an Agent.
pub const AGENT_CONTROL_COST: u32 = 1;
/// Tunnel space an Agent takes inside the network.
pub const AGENT_TUNNEL_SPACE_COST: u32 = 2;
/// Frames an Agent takes to build a tunnel (thirty seconds at sixteen frames per second).
pub const AGENT_TUNNEL_BUILD_FRAMES: u32 = 480;

/// Syndicate Guard: heavy infantry with a short-ranged attack.
pub fn guard_type_data() -> (r: UnitTypeData)
    ensures
        r == (UnitTypeData {
            faction: FactionEnum::TheSyndicate,
            silhouette_width: 36,
            silhouette_height: 36,
            max_hp: 80,
            point_armor: 1,
            full_armor: 1,
            unit_base: UnitBaseEnum::HeavyInfantry,
        }),
{
    UnitTypeData {
        faction: FactionEnum::TheSyndicate,
        silhouette_width: 36,
        silhouette_height: 36,
        max_hp: 80,
        point_armor: 1,
        full_armor: 1,
        unit_base: UnitBaseEnum::HeavyInfantry,
    }
}

/// Guard attack: instant ranged hit on ground targets, three cells.
pub fn guard_attack_data<F>() -> (r: AttackAttributesData<F>)
    ensures
        r.attack_type == AttackTypeEnum::FullyConnected,
        r.fc_subtype == Some(FullyConnectedSubtype::Ranged),
        r.target_domain == TargetDomainEnum::Ground,
        r.target_type == TargetTypeEnum::SingleTarget,
        r.aoe_radius is None,
        r.damage == 6,
        r.range == 3,
        r.min_range == 0,
        r.projectile_speed is None,
        r.aim_duration == 2,
        r.firing_duration == 1,
        r.cooldown_duration == 1,
        r.reload_duration == 4,
{
    AttackAttributesData {
        attack_type: AttackTypeEnum::FullyConnected,
        fc_subtype: Some(FullyConnectedSubtype::Ranged),
        target_domain: TargetDomainEnum::Ground,
        target_type: TargetTypeEnum::SingleTarget,
        aoe_radius: None,
        damage: 6,
        range: 3,
        min_range: 0,
        projectile_speed: None,
        aim_duration: 2,
        firing_duration: 1,
        cooldown_duration: 1,
        reload_duration: 4,
    }
}

/// Unit control of a Guard.
pub const GUARD_CONTROL_COST: u32 = 1;
/// Tunnel space a Guard takes inside the network.
pub const GUARD_TUNNEL_SPACE_COST: u32 = 2;

} // verus!
