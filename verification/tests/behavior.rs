use space_crystals::behavior::{
    AttachingToTowerBehavior, BaseBehaviorState, BuildTunnelPhase, BuildingStructureBehavior, BuildingTunnelBehavior,
    DropOffPhase, DroppingOffResourcesBehavior, DroppingOffSuppliesBehavior, EnteringTunnelBehavior, GatherPhase,
    GatheringResourceBehavior, InTunnelNetwork, LocomotionChannel, OrientationChannel, PickUpPhase,
    PickingUpSuppliesBehavior, TurretOrientationChannel,
};
use space_crystals::combat::{BaseAttackChannel, TurretAttackChannel};
use space_crystals::objects::ObjectEnum;

type Pos = (f32, f32, f32);
const ZERO: Pos = (0.0, 0.0, 0.0);
const ONE: Pos = (1.0, 1.0, 1.0);

#[test]
fn base_behavior_state_default_is_none() {
    let state = BaseBehaviorState::<Pos>::default();
    assert!(matches!(state, BaseBehaviorState::Idle));
}

#[test]
fn base_behavior_state_turn_rate_variant() {
    let state = BaseBehaviorState::TurnRate { planned_path: vec![ZERO, (5.0, 0.0, 5.0)], path_index: 0 };
    if let BaseBehaviorState::TurnRate { planned_path, path_index } = &state {
        assert_eq!(planned_path.len(), 2);
        assert_eq!(*path_index, 0);
    } else {
        panic!("Expected TurnRate variant");
    }
}

#[test]
fn base_behavior_state_fixed_turn_radius_variant() {
    let state = BaseBehaviorState::FixedTurnRadius { planned_path: vec![ONE], path_index: 0 };
    assert!(matches!(state, BaseBehaviorState::FixedTurnRadius { .. }));
}

#[test]
fn base_behavior_state_speed_turn_radius_variant() {
    let state = BaseBehaviorState::<Pos>::SpeedTurnRadius { planned_path: vec![], path_index: 0 };
    assert!(matches!(state, BaseBehaviorState::SpeedTurnRadius { .. }));
}

#[test]
fn base_behavior_state_drag_variant_with_drift() {
    let state = BaseBehaviorState::Drag { planned_path: vec![ZERO], path_index: 0, drift_velocity: (1.0, 0.0, -0.5) };
    if let BaseBehaviorState::Drag { drift_velocity, .. } = &state {
        assert_eq!(*drift_velocity, (1.0, 0.0, -0.5));
    } else {
        panic!("Expected Drag variant");
    }
}

#[test]
fn base_behavior_state_glider_variant_with_circling() {
    let state = BaseBehaviorState::Glider {
        planned_path: vec![(10.0, 5.0, 10.0)],
        path_index: 0,
        circling: true,
        strafe_target: Some((5.0, 0.0, 5.0)),
    };
    if let BaseBehaviorState::Glider { circling, strafe_target, .. } = &state {
        assert!(*circling);
        assert!(strafe_target.is_some());
    } else {
        panic!("Expected Glider variant");
    }
}

#[test]
fn base_behavior_state_has_variant_per_movement_model() {
    let variants: Vec<BaseBehaviorState<Pos>> = vec![
        BaseBehaviorState::TurnRate { planned_path: vec![], path_index: 0 },
        BaseBehaviorState::FixedTurnRadius { planned_path: vec![], path_index: 0 },
        BaseBehaviorState::SpeedTurnRadius { planned_path: vec![], path_index: 0 },
        BaseBehaviorState::Drag { planned_path: vec![], path_index: 0, drift_velocity: ZERO },
        BaseBehaviorState::Glider { planned_path: vec![], path_index: 0, circling: false, strafe_target: None },
        BaseBehaviorState::Idle,
    ];
    assert_eq!(variants.len(), 6);
}

#[test]
fn locomotion_channel_default_is_stationary() {
    let channel = LocomotionChannel::<Pos>::default();
    assert!(matches!(channel, LocomotionChannel::Stationary));
}

#[test]
fn locomotion_channel_moving_with_path() {
    let path = vec![(1.0, 0.0, 0.0), (5.0, 0.0, 5.0)];
    let channel = LocomotionChannel::Moving(path.clone());
    if let LocomotionChannel::Moving(waypoints) = &channel {
        assert_eq!(waypoints.len(), 2);
    } else {
        panic!("Expected Moving variant");
    }
}

#[test]
fn locomotion_channel_reversing() {
    let channel = LocomotionChannel::Reversing(vec![ZERO]);
    assert!(matches!(channel, LocomotionChannel::Reversing(_)));
}

#[test]
fn locomotion_channel_stopping() {
    let channel = LocomotionChannel::<Pos>::Stopping;
    assert!(matches!(channel, LocomotionChannel::Stopping));
}

#[test]
fn orientation_channel_default_is_maintaining() {
    let channel = OrientationChannel::<Pos>::default();
    assert!(matches!(channel, OrientationChannel::Maintaining));
}

#[test]
fn orientation_channel_turning_to_target() {
    let target: Pos = (10.0, 0.0, 5.0);
    let channel = OrientationChannel::Turning(target);
    if let OrientationChannel::Turning(pos) = channel {
        assert_eq!(pos, target);
    } else {
        panic!("Expected Turning variant");
    }
}

#[test]
fn base_attack_channel_default_is_none() {
    let channel = BaseAttackChannel::default();
    assert!(matches!(channel, BaseAttackChannel::Idle));
}

#[test]
fn base_attack_channel_aiming_at_target() {
    let channel = BaseAttackChannel::Aiming(42);
    if let BaseAttackChannel::Aiming(e) = channel {
        assert_eq!(e, 42);
    } else {
        panic!("Expected Aiming variant");
    }
}

#[test]
fn base_attack_channel_firing_at_target() {
    let channel = BaseAttackChannel::Firing(10);
    assert!(matches!(channel, BaseAttackChannel::Firing(_)));
}

#[test]
fn base_attack_channel_cooldown_and_reloading() {
    let cooldown = BaseAttackChannel::Cooldown;
    let reloading = BaseAttackChannel::Reloading;
    assert!(matches!(cooldown, BaseAttackChannel::Cooldown));
    assert!(matches!(reloading, BaseAttackChannel::Reloading));
}

#[test]
fn turret_orientation_channel_default_is_maintaining() {
    let channel = TurretOrientationChannel::<Pos>::default();
    assert!(matches!(channel, TurretOrientationChannel::Maintaining));
}

#[test]
fn turret_orientation_channel_turning() {
    let target: Pos = (3.0, 0.0, 7.0);
    let channel = TurretOrientationChannel::Turning(target);
    if let TurretOrientationChannel::Turning(pos) = channel {
        assert_eq!(pos, target);
    } else {
        panic!("Expected Turning variant");
    }
}

#[test]
fn turret_attack_channel_default_is_inactive() {
    let channel = TurretAttackChannel::default();
    assert!(matches!(channel, TurretAttackChannel::Inactive));
}

#[test]
fn turret_attack_channel_aiming() {
    let channel = TurretAttackChannel::Aiming(99);
    assert!(matches!(channel, TurretAttackChannel::Aiming(_)));
}

#[test]
fn turret_attack_channel_firing() {
    let channel = TurretAttackChannel::Firing(5);
    assert!(matches!(channel, TurretAttackChannel::Firing(_)));
}

#[test]
fn turret_attack_channel_cooldown_and_reloading() {
    let cooldown = TurretAttackChannel::Cooldown;
    let reloading = TurretAttackChannel::Reloading;
    assert!(matches!(cooldown, TurretAttackChannel::Cooldown));
    assert!(matches!(reloading, TurretAttackChannel::Reloading));
}

#[test]
fn locomotion_and_orientation_can_hold_independent_states() {
    let locomotion = LocomotionChannel::Moving(vec![(10.0, 0.0, 10.0)]);
    let orientation = OrientationChannel::Turning((5.0, 0.0, 5.0));
    assert!(matches!(locomotion, LocomotionChannel::Moving(_)));
    assert!(matches!(orientation, OrientationChannel::Turning(_)));
}

#[test]
fn turret_channels_independent_of_base_channels() {
    let base_orientation = OrientationChannel::<Pos>::Maintaining;
    let turret_orientation = TurretOrientationChannel::Turning(ONE);
    let turret_attack = TurretAttackChannel::Aiming(1);
    assert!(matches!(base_orientation, OrientationChannel::Maintaining));
    assert!(matches!(turret_orientation, TurretOrientationChannel::Turning(_)));
    assert!(matches!(turret_attack, TurretAttackChannel::Aiming(_)));
}

#[test]
fn entering_tunnel_behavior_new() {
    let behavior = EnteringTunnelBehavior::<Pos>::new(42);
    assert_eq!(behavior.target_tunnel, 42);
    assert!(behavior.path.is_empty());
    assert_eq!(behavior.path_index, 0);
}

#[test]
fn entering_tunnel_behavior_with_path() {
    let path = vec![(1.0, 0.0, 1.0), (5.0, 0.0, 5.0)];
    let behavior = EnteringTunnelBehavior::with_path(10, path.clone());
    assert_eq!(behavior.target_tunnel, 10);
    assert_eq!(behavior.path.len(), 2);
    assert_eq!(behavior.path_index, 0);
}

#[test]
fn entering_tunnel_behavior_stores_tunnel_entity() {
    let tunnel: u64 = 99;
    let behavior = EnteringTunnelBehavior::<Pos>::new(tunnel);
    assert_eq!(behavior.target_tunnel, tunnel);
}

#[test]
fn in_tunnel_network_stores_owner() {
    let marker = InTunnelNetwork { owner_player: 1 };
    assert_eq!(marker.owner_player, 1);
}

#[test]
fn in_tunnel_network_different_players() {
    let p1 = InTunnelNetwork { owner_player: 0 };
    let p2 = InTunnelNetwork { owner_player: 1 };
    assert_ne!(p1.owner_player, p2.owner_player);
}

#[test]
fn building_structure_behavior_new() {
    let behavior = BuildingStructureBehavior::new((10.0, 0.0, 10.0), ObjectEnum::Tunnel);
    assert_eq!(behavior.target_location, (10.0, 0.0, 10.0));
    assert_eq!(behavior.object_to_build, ObjectEnum::Tunnel);
    assert!(!behavior.arrived);
    assert!(behavior.path.is_empty());
    assert_eq!(behavior.path_index, 0);
}

#[test]
fn building_structure_behavior_with_path() {
    let path = vec![(1.0, 0.0, 1.0), (10.0, 0.0, 10.0)];
    let behavior = BuildingStructureBehavior::with_path((10.0, 0.0, 10.0), ObjectEnum::Tunnel, path.clone());
    assert_eq!(behavior.path.len(), 2);
    assert!(!behavior.arrived);
    assert_eq!(behavior.path_index, 0);
}

#[test]
fn building_structure_behavior_arrived_defaults_false() {
    let behavior = BuildingStructureBehavior::new(ZERO, ObjectEnum::Tunnel);
    assert!(!behavior.arrived);
}

#[test]
fn building_structure_behavior_stores_object_type() {
    let behavior = BuildingStructureBehavior::new(ZERO, ObjectEnum::Tunnel);
    assert_eq!(behavior.object_to_build, ObjectEnum::Tunnel);
}

#[test]
fn gathering_resource_behavior_new() {
    let target: u64 = 5;
    let behavior = GatheringResourceBehavior::<Pos>::new(target);
    assert_eq!(behavior.target_resource, target);
    assert_eq!(behavior.phase, GatherPhase::MovingToResource);
    assert!(behavior.path.is_empty());
    assert_eq!(behavior.path_index, 0);
}

#[test]
fn gather_phase_extracting_tracks_frames() {
    let phase = GatherPhase::<Pos>::Extracting { frames_remaining: 48 };
    assert_eq!(phase, GatherPhase::Extracting { frames_remaining: 48 });
}

#[test]
fn gather_phase_moving_to_tunnel_stores_data() {
    let phase = GatherPhase::MovingToTunnel { tunnel_entity: 1, side_position: (5.0, 0.0, 5.0) };
    if let GatherPhase::MovingToTunnel { tunnel_entity, side_position } = phase {
        assert_eq!(tunnel_entity, 1);
        assert_eq!(side_position, (5.0, 0.0, 5.0));
    } else {
        panic!("Expected MovingToTunnel");
    }
}

#[test]
fn gather_phase_dropping_off_tracks_frames() {
    let tunnel: u64 = 99;
    let phase = GatherPhase::<Pos>::DroppingOff { tunnel_entity: tunnel, frames_remaining: 24 };
    assert_eq!(phase, GatherPhase::DroppingOff { tunnel_entity: tunnel, frames_remaining: 24 });
}

#[test]
fn dropping_off_resources_behavior_new() {
    let tunnel: u64 = 42;
    let behavior = DroppingOffResourcesBehavior::<Pos>::new(tunnel);
    assert_eq!(behavior.target_tunnel, tunnel);
    assert_eq!(behavior.phase, DropOffPhase::MovingToTunnel);
    assert!(behavior.path.is_empty());
    assert_eq!(behavior.path_index, 0);
}

#[test]
fn drop_off_phase_moving_is_default() {
    let phase = DropOffPhase::MovingToTunnel;
    assert_eq!(phase, DropOffPhase::MovingToTunnel);
}

#[test]
fn drop_off_phase_dropping_off_tracks_frames() {
    let phase = DropOffPhase::DroppingOff { frames_remaining: 48 };
    assert_eq!(phase, DropOffPhase::DroppingOff { frames_remaining: 48 });
}

#[test]
fn building_tunnel_behavior_new() {
    let target: Pos = (10.0, 0.0, 10.0);
    let behavior = BuildingTunnelBehavior::new(target);
    assert_eq!(behavior.target_location, target);
    assert_eq!(behavior.phase, BuildTunnelPhase::MovingToSite);
    assert!(behavior.path.is_empty());
    assert_eq!(behavior.path_index, 0);
}

#[test]
fn build_tunnel_phase_constructing_equality() {
    let phase_a = BuildTunnelPhase::Constructing { tunnel_entity: 1, frames_elapsed: 50 };
    let phase_b = BuildTunnelPhase::Constructing { tunnel_entity: 1, frames_elapsed: 50 };
    assert_eq!(phase_a, phase_b);
}

#[test]
fn build_tunnel_phase_constructing_not_equal_different_frames() {
    let phase_a = BuildTunnelPhase::Constructing { tunnel_entity: 1, frames_elapsed: 50 };
    let phase_b = BuildTunnelPhase::Constructing { tunnel_entity: 1, frames_elapsed: 100 };
    assert_ne!(phase_a, phase_b);
}

#[test]
fn build_tunnel_phase_moving_not_equal_constructing() {
    let phase_a = BuildTunnelPhase::MovingToSite;
    let phase_b = BuildTunnelPhase::Constructing { tunnel_entity: 1, frames_elapsed: 0 };
    assert_ne!(phase_a, phase_b);
}

#[test]
fn picking_up_supplies_behavior_new() {
    let target: u64 = 42;
    let behavior = PickingUpSuppliesBehavior::new(target);
    assert_eq!(behavior.target_sds, target);
    assert_eq!(behavior.phase, PickUpPhase::MovingToSDS);
}

#[test]
fn pick_up_phase_transferring_tracks_frames() {
    let phase = PickUpPhase::Transferring { frames_remaining: 30 };
    assert_eq!(phase, PickUpPhase::Transferring { frames_remaining: 30 });
}

#[test]
fn pick_up_phase_moving_not_equal_transferring() {
    assert_ne!(PickUpPhase::MovingToSDS, PickUpPhase::Transferring { frames_remaining: 0 });
}

#[test]
fn attaching_to_tower_behavior_new() {
    let target: u64 = 7;
    let behavior = AttachingToTowerBehavior::new(target);
    assert_eq!(behavior.target_tower, target);
}

#[test]
fn dropping_off_supplies_behavior_new() {
    let target: u64 = 99;
    let behavior = DroppingOffSuppliesBehavior::new(target);
    assert_eq!(behavior.target_tower, target);
}
