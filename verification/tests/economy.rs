use space_crystals::economy::{
    cancel_barracks, cancel_dc, claim_unit_control, complete_dc_construction, complete_ef_construction,
    compute_power_grid, dc_build_request, extraction_plate_frame, faction_player_numbers, find_ejectable, headquarters_tick, hq_spawn_point,
    mine_patch, plate_destroyed, plate_mining_due, produced_unit_base, queue_peacekeeper, rally_order,
    rally_target_cleanup, release_unit_control, start_dc_construction, tunnel_tick, EjectionQueue, GdoPlayerResources,
    HqTickEvent, Owner, QueueOutcome, RallyOrder, TunnelTickEvent, EJECTION_COOLDOWN,
};
use space_crystals::objects::{ObjectEnum, StructureRotation};
use space_crystals::structures::{
    BarracksState, DeploymentCenterState, ExtractionFacilityState, ExtractionPlateState, HeadquartersState,
    PowerValue, RallyTarget, SupplyTowerState, TunnelArea, TunnelOperation, TunnelState, TunnelTier,
};
use space_crystals::units::UnitBaseEnum;
use space_crystals::world::SpaceCrystalPatch;

type Pos = (f32, f32, f32);

#[test]
fn starting_resources() {
    let r = GdoPlayerResources::starting();
    assert_eq!(r.space_crystals, 1000);
    assert_eq!(r.unit_control_cap, 200);
    assert_eq!(r.unit_control_used, 0);
    assert!(!r.has_power_plant);
}

#[test]
fn owner_helpers() {
    assert_eq!(Owner::player(3).player_number(), Some(3));
    assert!(Owner::neutral().is_neutral());
    assert!(!Owner::player(0).is_neutral());
}

#[test]
fn unit_control_cap_check() {
    let mut r = GdoPlayerResources::starting();
    r.unit_control_used = 199;
    assert!(r.has_unit_control(1));
    assert!(!r.has_unit_control(2));
}

#[test]
fn claiming_and_releasing_control_round_trips() {
    let mut r = GdoPlayerResources::starting();
    claim_unit_control(&mut r, 1);
    claim_unit_control(&mut r, 1);
    assert_eq!(r.unit_control_used, 2);
    release_unit_control(&mut r, 1);
    assert_eq!(r.unit_control_used, 1);
    release_unit_control(&mut r, 5);
    assert_eq!(r.unit_control_used, 0, "release never goes below zero");
    assert_eq!(r.space_crystals, 1000);
}

#[test]
fn player_numbers_follow_selected_faction() {
    assert_eq!(faction_player_numbers(true), (0, 1));
    assert_eq!(faction_player_numbers(false), (1, 0));
}

#[test]
fn power_grid_sums_owned_buildings() {
    let mut r = GdoPlayerResources::starting();
    let buildings = vec![
        (Owner::player(0), PowerValue(20), ObjectEnum::DeploymentCenter),
        (Owner::player(0), PowerValue(20), ObjectEnum::PowerPlant),
        (Owner::player(0), PowerValue(-30), ObjectEnum::Barracks),
        (Owner::player(1), PowerValue(-15), ObjectEnum::ExtractionFacility),
    ];
    compute_power_grid(&mut r, 0, &buildings);
    assert_eq!(r.power_generated, 40);
    assert_eq!(r.power_consumed, 30);
    assert!(r.has_power_plant);
    assert_eq!(r.current_power(), 10);
}

#[test]
fn power_grid_without_power_plant() {
    let mut r = GdoPlayerResources::starting();
    let buildings = vec![(Owner::player(0), PowerValue(20), ObjectEnum::DeploymentCenter)];
    compute_power_grid(&mut r, 0, &buildings);
    assert!(!r.has_power_plant);
    assert_eq!(r.power_generated, 20);
    assert_eq!(r.power_consumed, 0);
}

#[test]
fn plate_mines_every_interval() {
    let mut plate = ExtractionPlateState { attached_patch: 1, mining_timer: 46 };
    assert!(!plate_mining_due(&mut plate));
    assert_eq!(plate.mining_timer, 47);
    assert!(plate_mining_due(&mut plate));
    assert_eq!(plate.mining_timer, 0);
}

#[test]
fn mining_takes_rate_then_remainder_then_residual() {
    let mut patch = SpaceCrystalPatch { remaining_amount: 14, initial_amount: 14, has_plate: true };
    assert_eq!(mine_patch(&mut patch), 10);
    assert_eq!(patch.remaining_amount, 4);
    assert_eq!(mine_patch(&mut patch), 4);
    assert_eq!(patch.remaining_amount, 0);
    assert_eq!(mine_patch(&mut patch), 1, "a depleted patch still yields the residual rate");
    assert_eq!(patch.remaining_amount, 0);
}

#[test]
fn destroyed_plate_uncovers_or_removes_patch() {
    let mut full = SpaceCrystalPatch { remaining_amount: 500, initial_amount: 1000, has_plate: true };
    assert!(!plate_destroyed(&mut full));
    assert!(!full.has_plate);
    let mut empty = SpaceCrystalPatch { remaining_amount: 0, initial_amount: 1000, has_plate: true };
    assert!(plate_destroyed(&mut empty));
    assert!(empty.has_plate);
}

#[test]
fn dc_build_keys() {
    assert_eq!(dc_build_request(true, true, false), Some(ObjectEnum::PowerPlant));
    assert_eq!(dc_build_request(false, true, true), Some(ObjectEnum::Barracks));
    assert_eq!(dc_build_request(false, false, true), Some(ObjectEnum::ExtractionFacility));
    assert_eq!(dc_build_request(false, false, false), None);
}

#[test]
fn dc_start_and_cancel_refunds_everything() {
    let mut dc = DeploymentCenterState::<f32>::default();
    let mut crystals = 1000;
    assert!(start_dc_construction(&mut dc, &mut crystals, ObjectEnum::Barracks, 0.0));
    assert_eq!(crystals, 800);
    assert_eq!(dc.current_construction, Some(ObjectEnum::Barracks));
    assert!(!start_dc_construction(&mut dc, &mut crystals, ObjectEnum::PowerPlant, 0.0), "one construction at a time");
    assert_eq!(cancel_dc(&mut dc, &mut crystals), 200);
    assert_eq!(crystals, 1000);
    assert!(dc.current_construction.is_none());
}

#[test]
fn dc_start_refused_without_crystals_or_for_unbuildable() {
    let mut dc = DeploymentCenterState::<f32>::default();
    let mut crystals = 100;
    assert!(!start_dc_construction(&mut dc, &mut crystals, ObjectEnum::PowerPlant, 0.0));
    assert_eq!(crystals, 100);
    let mut crystals = 1000;
    assert!(!start_dc_construction(&mut dc, &mut crystals, ObjectEnum::Peacekeeper, 0.0));
    assert_eq!(crystals, 1000);
}

#[test]
fn dc_ready_structure_refunds_three_quarters() {
    let mut dc = DeploymentCenterState::<f32>::default();
    let mut crystals = 1000;
    assert!(start_dc_construction(&mut dc, &mut crystals, ObjectEnum::PowerPlant, 0.0));
    complete_dc_construction(&mut dc);
    assert_eq!(dc.ready_to_place, Some(ObjectEnum::PowerPlant));
    assert!(!start_dc_construction(&mut dc, &mut crystals, ObjectEnum::Barracks, 0.0), "place the ready one first");
    assert_eq!(cancel_dc(&mut dc, &mut crystals), 112);
    assert_eq!(crystals, 850 + 112);
    assert!(dc.ready_to_place.is_none());
}

#[test]
fn cancel_idle_dc_refunds_nothing() {
    let mut dc = DeploymentCenterState::<f32>::default();
    let mut crystals = 5;
    assert_eq!(cancel_dc(&mut dc, &mut crystals), 0);
    assert_eq!(crystals, 5);
}

#[test]
fn peacekeeper_queue_outcomes() {
    let mut bk = BarracksState::<f32, Pos>::default();
    let mut crystals = 40;
    assert_eq!(queue_peacekeeper(&mut bk, &mut crystals, true), QueueOutcome::NotEnoughCrystals);
    let mut crystals = 1000;
    assert_eq!(queue_peacekeeper(&mut bk, &mut crystals, false), QueueOutcome::UnitControlCapReached);
    for _ in 0..5 {
        assert_eq!(queue_peacekeeper(&mut bk, &mut crystals, true), QueueOutcome::Queued);
    }
    assert_eq!(crystals, 750);
    assert_eq!(queue_peacekeeper(&mut bk, &mut crystals, true), QueueOutcome::QueueFull);
    assert_eq!(crystals, 750);
    assert_eq!(cancel_barracks(&mut bk, &mut crystals), 50);
    assert_eq!(crystals, 800);
    assert_eq!(bk.build_queue.len(), 4);
}

#[test]
fn cancel_empty_barracks_refunds_nothing() {
    let mut bk = BarracksState::<f32, Pos>::default();
    let mut crystals = 0;
    assert_eq!(cancel_barracks(&mut bk, &mut crystals), 0);
    assert_eq!(crystals, 0);
}

#[test]
fn barracks_starts_next_build_from_queue() {
    let mut bk = BarracksState::<f32, Pos>::default();
    bk.try_queue(ObjectEnum::Peacekeeper);
    bk.try_queue(ObjectEnum::Peacekeeper);
    bk.begin_next_build(0.0);
    assert_eq!(bk.current_build, Some(ObjectEnum::Peacekeeper));
    assert_eq!(bk.current_build_progress, Some(0.0));
    assert_eq!(bk.build_queue.len(), 1);
    bk.begin_next_build(0.0);
    assert_eq!(bk.build_queue.len(), 1, "busy: the queue waits");
    bk.finish_build();
    assert!(bk.current_build.is_none());
    assert!(bk.current_build_progress.is_none());
}

#[test]
fn supply_tower_starts_next_build_from_queue() {
    let mut st = SupplyTowerState::<f32, Pos>::default();
    st.try_queue(ObjectEnum::SupplyChopper);
    st.begin_next_build(0.0);
    assert_eq!(st.current_build, Some(ObjectEnum::SupplyChopper));
    assert!(st.build_queue.is_empty());
    st.finish_build();
    assert!(st.current_build.is_none());
}

#[test]
fn extraction_facility_completes() {
    let mut ef = ExtractionFacilityState::<f32>::default();
    ef.current_construction = true;
    ef.construction_progress = Some(10.0);
    complete_ef_construction(&mut ef);
    assert!(ef.ready_to_place);
    assert!(!ef.current_construction);
    assert!(ef.construction_progress.is_none());
}

#[test]
fn headquarters_produces_agent_after_build_time() {
    let mut hq = HeadquartersState::<u32, Pos>::default();
    hq.try_queue(ObjectEnum::SyndicateAgent);
    let mut produced = None;
    for frame in 0..200 {
        match headquarters_tick(&mut hq, 42) {
            HqTickEvent::Working => {}
            HqTickEvent::Produced { unit, eject } => {
                produced = Some((frame, unit, eject));
                break;
            }
        }
    }
    assert_eq!(produced, Some((159, ObjectEnum::SyndicateAgent, false)));
    assert!(hq.current_build.is_none());
}

#[test]
fn headquarters_unit_ejects_with_surface_rally() {
    let mut hq = HeadquartersState::<u32, Pos>::default();
    hq.rally_point = Some(RallyTarget::Location((1.0, 0.0, 1.0)));
    hq.current_build = Some(ObjectEnum::SyndicateGuard);
    hq.current_build_progress = Some(119);
    assert_eq!(
        headquarters_tick(&mut hq, 42),
        HqTickEvent::Produced { unit: ObjectEnum::SyndicateGuard, eject: true }
    );
}

#[test]
fn headquarters_spawn_point_and_unit_base() {
    assert_eq!(hq_spawn_point(Some((5, 6))), (5, 6));
    assert_eq!(hq_spawn_point(None), (32, 32));
    assert_eq!(produced_unit_base(ObjectEnum::SyndicateAgent), UnitBaseEnum::HeavyInfantry);
}

#[test]
fn rally_orders() {
    let me = Owner::player(0);
    let none: Option<RallyTarget<Pos>> = None;
    assert!(matches!(rally_order(&none, me, None), RallyOrder::Stay));
    let loc = Some(RallyTarget::Location((3.0, 0.0, 4.0)));
    assert!(matches!(rally_order(&loc, me, None), RallyOrder::MoveTo(p) if p == (3.0, 0.0, 4.0)));
    let obj: Option<RallyTarget<Pos>> = Some(RallyTarget::Object(9));
    assert!(matches!(rally_order(&obj, me, Some(Owner::player(1))), RallyOrder::Attack(9)));
    assert!(matches!(rally_order(&obj, me, Some(Owner::player(0))), RallyOrder::MoveToObject(9)));
    assert!(matches!(rally_order(&obj, me, Some(Owner::neutral())), RallyOrder::MoveToObject(9)));
    assert!(matches!(rally_order(&obj, me, None), RallyOrder::Stay));
}

#[test]
fn rally_cleanup_drops_dead_objects_only() {
    let mut rally: Option<RallyTarget<Pos>> = Some(RallyTarget::Object(7));
    rally_target_cleanup(&mut rally, &[1, 7]);
    assert!(rally.is_some());
    rally_target_cleanup(&mut rally, &[1]);
    assert!(rally.is_none());
    let mut loc: Option<RallyTarget<Pos>> = Some(RallyTarget::Location((0.0, 0.0, 0.0)));
    rally_target_cleanup(&mut loc, &[]);
    assert!(loc.is_some());
}

#[test]
fn tunnel_upgrade_completes_after_upgrade_frames() {
    let mut state = TunnelState::<u32>::default_tier1();
    let mut area = TunnelArea::new(10, 10, &TunnelTier::Tier1);
    state.current_operation = Some(TunnelOperation::Upgrading { target_tier: TunnelTier::Tier2, progress: 478 });
    assert_eq!(tunnel_tick(&mut state, &mut area), TunnelTickEvent::Working);
    assert_eq!(
        tunnel_tick(&mut state, &mut area),
        TunnelTickEvent::UpgradeCompleted { tier: TunnelTier::Tier2, space_gained: 10 }
    );
    assert_eq!(state.tier, TunnelTier::Tier2);
    assert!(!state.is_busy());
    assert_eq!(area.cells.len(), 144);
    assert_eq!(tunnel_tick(&mut state, &mut area), TunnelTickEvent::Working);
}

#[test]
fn tunnel_headquarters_expansion_takes_hq_build_time() {
    let mut state = TunnelState::<u32>::default_tier1();
    let mut area = TunnelArea::new(10, 10, &TunnelTier::Tier1);
    state.current_operation = Some(TunnelOperation::BuildingExpansion {
        object: ObjectEnum::Headquarters,
        progress: 398,
        grid_x: 12,
        grid_z: 8,
        rotation: StructureRotation::R0,
        flip_horizontal: false,
        flip_vertical: true,
    });
    assert_eq!(tunnel_tick(&mut state, &mut area), TunnelTickEvent::Working);
    assert_eq!(
        tunnel_tick(&mut state, &mut area),
        TunnelTickEvent::ExpansionCompleted {
            object: ObjectEnum::Headquarters,
            grid_x: 12,
            grid_z: 8,
            rotation: StructureRotation::R0,
            flip_horizontal: false,
            flip_vertical: true,
        }
    );
    assert!(!state.is_busy());
    assert_eq!(area.cells.len(), 100);
}

#[test]
fn ejection_queue_respects_cooldown_and_order() {
    let mut q = EjectionQueue { queue: Vec::new(), cooldown: 0 };
    assert_eq!(q.tick(Some(5), &[5, 6]), Some(5));
    assert_eq!(q.cooldown, EJECTION_COOLDOWN);
    assert_eq!(q.tick(Some(6), &[5, 6]), None);
    for _ in 0..7 {
        assert_eq!(q.tick(None, &[5, 6]), None);
    }
    assert_eq!(q.cooldown, 0);
    assert_eq!(q.tick(None, &[5, 6]), Some(6));
}

#[test]
fn ejection_skips_units_no_longer_in_network() {
    let mut q = EjectionQueue { queue: vec![3], cooldown: 0 };
    assert_eq!(q.tick(None, &[4]), None);
    assert!(q.queue.is_empty());
    assert_eq!(q.cooldown, 0);
}

#[test]
fn find_ejectable_picks_first_matching_unit() {
    let network = [(1, ObjectEnum::SyndicateGuard, 0), (2, ObjectEnum::SyndicateAgent, 1), (3, ObjectEnum::SyndicateAgent, 0)];
    assert_eq!(find_ejectable(&network, ObjectEnum::SyndicateAgent, 0), Some(3));
    assert_eq!(find_ejectable(&network, ObjectEnum::SyndicateGuard, 1), None);
}

#[test]
fn mined_crystals_are_credited_to_the_owner() {
    let mut plate = ExtractionPlateState { attached_patch: 1, mining_timer: 46 };
    let mut patch = SpaceCrystalPatch { remaining_amount: 25, initial_amount: 1000, has_plate: true };
    let mut crystals = 100;
    assert_eq!(extraction_plate_frame(&mut plate, &mut patch, &mut crystals), 0);
    assert_eq!(plate.mining_timer, 47);
    assert_eq!(crystals, 100);
    assert_eq!(patch.remaining_amount, 25);
    assert_eq!(extraction_plate_frame(&mut plate, &mut patch, &mut crystals), 10);
    assert_eq!(plate.mining_timer, 0);
    assert_eq!(crystals, 110);
    assert_eq!(patch.remaining_amount, 15);

    let mut low = SpaceCrystalPatch { remaining_amount: 4, initial_amount: 1000, has_plate: true };
    plate.mining_timer = 47;
    assert_eq!(extraction_plate_frame(&mut plate, &mut low, &mut crystals), 4);
    assert_eq!(crystals, 114);
    assert_eq!(low.remaining_amount, 0);
    plate.mining_timer = 47;
    assert_eq!(extraction_plate_frame(&mut plate, &mut low, &mut crystals), 1, "a depleted patch still yields the residual rate");
    assert_eq!(crystals, 115);
    assert_eq!(low.remaining_amount, 0);
}
