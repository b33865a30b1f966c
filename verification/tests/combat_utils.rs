use space_crystals::combat::{is_domain_compatible, is_valid_target, AttackTypeEnum, FullyConnectedSubtype, TargetDomainEnum};
use space_crystals::fog::VisibilityStateEnum;
use space_crystals::units::DomainEnum;

#[test]
fn fully_connected_cannot_miss() {
    assert!(!AttackTypeEnum::FullyConnected.can_miss());
}

#[test]
fn fully_connected_cannot_target_ground() {
    assert!(!AttackTypeEnum::FullyConnected.can_target_ground());
}

#[test]
fn fully_connected_no_projectile_speed() {
    assert!(!AttackTypeEnum::FullyConnected.requires_projectile_speed());
}

#[test]
fn fully_connected_no_location_target() {
    assert!(!AttackTypeEnum::FullyConnected.allows_location_target());
}

#[test]
fn head_disjointed_cannot_miss() {
    assert!(!AttackTypeEnum::HeadDisjointed.can_miss());
}

#[test]
fn head_disjointed_cannot_target_ground() {
    assert!(!AttackTypeEnum::HeadDisjointed.can_target_ground());
}

#[test]
fn head_disjointed_requires_projectile_speed() {
    assert!(AttackTypeEnum::HeadDisjointed.requires_projectile_speed());
}

#[test]
fn head_disjointed_no_location_target() {
    assert!(!AttackTypeEnum::HeadDisjointed.allows_location_target());
}

#[test]
fn tail_disjointed_can_miss() {
    assert!(AttackTypeEnum::TailDisjointed.can_miss());
}

#[test]
fn tail_disjointed_can_target_ground() {
    assert!(AttackTypeEnum::TailDisjointed.can_target_ground());
}

#[test]
fn tail_disjointed_no_projectile_speed() {
    assert!(!AttackTypeEnum::TailDisjointed.requires_projectile_speed());
}

#[test]
fn tail_disjointed_allows_location_target() {
    assert!(AttackTypeEnum::TailDisjointed.allows_location_target());
}

#[test]
fn doubly_disjointed_can_miss() {
    assert!(AttackTypeEnum::DoublyDisjointed.can_miss());
}

#[test]
fn doubly_disjointed_can_target_ground() {
    assert!(AttackTypeEnum::DoublyDisjointed.can_target_ground());
}

#[test]
fn doubly_disjointed_requires_projectile_speed() {
    assert!(AttackTypeEnum::DoublyDisjointed.requires_projectile_speed());
}

#[test]
fn doubly_disjointed_allows_location_target() {
    assert!(AttackTypeEnum::DoublyDisjointed.allows_location_target());
}

#[test]
fn ground_attack_hits_ground_units() {
    assert!(is_domain_compatible(&TargetDomainEnum::Ground, &DomainEnum::Ground));
}

#[test]
fn ground_attack_hits_underground_units() {
    assert!(is_domain_compatible(&TargetDomainEnum::Ground, &DomainEnum::Underground));
}

#[test]
fn ground_attack_misses_air_units() {
    assert!(!is_domain_compatible(&TargetDomainEnum::Ground, &DomainEnum::Air));
}

#[test]
fn air_attack_hits_air_units() {
    assert!(is_domain_compatible(&TargetDomainEnum::Air, &DomainEnum::Air));
}

#[test]
fn air_attack_misses_ground_units() {
    assert!(!is_domain_compatible(&TargetDomainEnum::Air, &DomainEnum::Ground));
}

#[test]
fn air_attack_misses_underground_units() {
    assert!(!is_domain_compatible(&TargetDomainEnum::Air, &DomainEnum::Underground));
}

#[test]
fn universal_attack_hits_ground() {
    assert!(is_domain_compatible(&TargetDomainEnum::Universal, &DomainEnum::Ground));
}

#[test]
fn universal_attack_hits_air() {
    assert!(is_domain_compatible(&TargetDomainEnum::Universal, &DomainEnum::Air));
}

#[test]
fn universal_attack_hits_underground() {
    assert!(is_domain_compatible(&TargetDomainEnum::Universal, &DomainEnum::Underground));
}

// A Peacekeeper is destructible; a Space Crystals patch is not.
const PEACEKEEPER_DESTRUCTIBLE: bool = true;
const PATCH_DESTRUCTIBLE: bool = false;

#[test]
fn valid_target_accepts_destructible_visible_compatible() {
    let vis = VisibilityStateEnum::Visible;
    let domain = DomainEnum::Ground;
    let attack_domain = TargetDomainEnum::Ground;
    assert!(is_valid_target(PEACEKEEPER_DESTRUCTIBLE, &vis, &domain, &attack_domain));
}

#[test]
fn valid_target_rejects_indestructible() {
    let vis = VisibilityStateEnum::Visible;
    let domain = DomainEnum::Ground;
    let attack_domain = TargetDomainEnum::Ground;
    assert!(!is_valid_target(PATCH_DESTRUCTIBLE, &vis, &domain, &attack_domain));
}

#[test]
fn valid_target_rejects_unexplored() {
    let vis = VisibilityStateEnum::Unexplored;
    let domain = DomainEnum::Ground;
    let attack_domain = TargetDomainEnum::Ground;
    assert!(!is_valid_target(PEACEKEEPER_DESTRUCTIBLE, &vis, &domain, &attack_domain));
}

#[test]
fn valid_target_rejects_explored_but_not_visible() {
    let vis = VisibilityStateEnum::Explored;
    let domain = DomainEnum::Ground;
    let attack_domain = TargetDomainEnum::Ground;
    assert!(!is_valid_target(PEACEKEEPER_DESTRUCTIBLE, &vis, &domain, &attack_domain));
}

#[test]
fn valid_target_rejects_domain_incompatible() {
    let vis = VisibilityStateEnum::Visible;
    let domain = DomainEnum::Air;
    let attack_domain = TargetDomainEnum::Ground;
    assert!(!is_valid_target(PEACEKEEPER_DESTRUCTIBLE, &vis, &domain, &attack_domain));
}

#[test]
fn valid_target_universal_attack_accepts_air() {
    let vis = VisibilityStateEnum::Visible;
    let domain = DomainEnum::Air;
    let attack_domain = TargetDomainEnum::Universal;
    assert!(is_valid_target(PEACEKEEPER_DESTRUCTIBLE, &vis, &domain, &attack_domain));
}

#[test]
fn fully_connected_subtype_ranged_vs_melee_distinct() {
    assert_ne!(FullyConnectedSubtype::Ranged, FullyConnectedSubtype::Melee);
}
