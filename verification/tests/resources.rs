use space_crystals::fog::{FogOfWarMap, VisibilityStateEnum};
use space_crystals::interface::{AgentMenuState, CommandType, ObjectInterfaceState, StructureMenuState};
use space_crystals::objects::ObjectEnum;
use space_crystals::selection::{click_select, fog_selectable, interface_state_is_valid, MemberState, PreviousSelectionSnapshot};

fn fog_filter_allows(is_owned: bool, is_neutral: bool, visibility: VisibilityStateEnum) -> bool {
    fog_selectable(is_owned, is_neutral, visibility)
}

#[test]
fn fog_filter_owned_always_selectable() {
    assert!(fog_filter_allows(true, false, VisibilityStateEnum::Unexplored));
    assert!(fog_filter_allows(true, false, VisibilityStateEnum::Explored));
    assert!(fog_filter_allows(true, false, VisibilityStateEnum::Visible));
}

#[test]
fn fog_filter_neutral_always_selectable() {
    assert!(fog_filter_allows(false, true, VisibilityStateEnum::Unexplored));
    assert!(fog_filter_allows(false, true, VisibilityStateEnum::Explored));
    assert!(fog_filter_allows(false, true, VisibilityStateEnum::Visible));
}

#[test]
fn fog_filter_enemy_visible_selectable() {
    assert!(fog_filter_allows(false, false, VisibilityStateEnum::Visible));
}

#[test]
fn fog_filter_enemy_explored_not_selectable() {
    assert!(!fog_filter_allows(false, false, VisibilityStateEnum::Explored));
}

#[test]
fn fog_filter_enemy_unexplored_not_selectable() {
    assert!(!fog_filter_allows(false, false, VisibilityStateEnum::Unexplored));
}

#[test]
fn fog_map_out_of_bounds_returns_unexplored() {
    let fog_map = FogOfWarMap::new(64, 64);
    assert_eq!(fog_map.get(0, -1, -1), VisibilityStateEnum::Unexplored);
    assert_eq!(fog_map.get(0, 999, 999), VisibilityStateEnum::Unexplored);
}

#[test]
fn fog_map_default_tiles_are_unexplored() {
    let mut fog_map = FogOfWarMap::new(64, 64);
    fog_map.ensure_player(0);
    assert_eq!(fog_map.get(0, 32, 32), VisibilityStateEnum::Unexplored);
}

#[test]
fn fog_map_visible_tile_allows_enemy_selection() {
    let mut fog_map = FogOfWarMap::new(64, 64);
    fog_map.ensure_player(0);
    fog_map.set(0, 32, 32, VisibilityStateEnum::Visible);
    assert_eq!(fog_map.get(0, 32, 32), VisibilityStateEnum::Visible);
    assert!(fog_filter_allows(false, false, fog_map.get(0, 32, 32)));
}

#[test]
fn fog_map_explored_tile_blocks_enemy_selection() {
    let mut fog_map = FogOfWarMap::new(64, 64);
    fog_map.ensure_player(0);
    fog_map.set(0, 32, 32, VisibilityStateEnum::Explored);
    assert_eq!(fog_map.get(0, 32, 32), VisibilityStateEnum::Explored);
    assert!(!fog_filter_allows(false, false, fog_map.get(0, 32, 32)));
}

#[test]
fn shift_click_add_predicate_keeps_existing() {
    let entity_a: u64 = 1;
    let entity_b: u64 = 2;
    let selected = click_select(&[(entity_a, true)], Some((entity_b, true)), false, true);
    assert_eq!(selected.len(), 2);
    assert!(selected.contains(&entity_a));
    assert!(selected.contains(&entity_b));
}

#[test]
fn shift_click_does_not_deselect_on_empty() {
    let selection = click_select(&[(1, true)], None, false, true);
    assert_eq!(selection.len(), 1, "Selection preserved when shift+clicking empty space");
}

#[test]
fn shift_click_non_owned_still_single_selects() {
    let selection = click_select(&[(1, true), (2, true)], Some((3, false)), false, true);
    assert_eq!(selection, vec![3], "Non-owned entities always single-select");
}

#[test]
fn active_group_cycle_skips_when_commandable_groups_present() {
    let groups = [ObjectEnum::Peacekeeper, ObjectEnum::SyndicateAgent];
    let has_commandable_groups = !groups.is_empty() && !groups.iter().all(|g| g.is_resource());
    assert!(has_commandable_groups, "Non-resource groups should be detected as commandable");
}

#[test]
fn interface_reset_on_selection_change() {
    let mut prev = PreviousSelectionSnapshot::default();
    assert!(!prev.update(None, &[]));
    let state = ObjectInterfaceState::AwaitingTarget(CommandType::Move);
    let changed = prev.update(Some(0), &[ObjectEnum::Peacekeeper]);
    let state = if changed { ObjectInterfaceState::Default } else { state };
    assert_eq!(state, ObjectInterfaceState::Default, "Interface state should reset to Default when selection changes");
}

#[test]
fn interface_reset_on_active_group_index_change() {
    let mut prev = PreviousSelectionSnapshot::default();
    let groups = [ObjectEnum::Peacekeeper, ObjectEnum::SyndicateGuard];
    prev.update(Some(0), &groups);
    let state = ObjectInterfaceState::AwaitingTarget(CommandType::Attack);
    let changed = prev.update(Some(1), &groups);
    let state = if changed { ObjectInterfaceState::Default } else { state };
    assert_eq!(state, ObjectInterfaceState::Default, "Interface state should reset when active_group_index changes");
}

#[test]
fn interface_no_reset_when_selection_unchanged() {
    let mut prev = PreviousSelectionSnapshot::default();
    let groups = [ObjectEnum::Peacekeeper];
    prev.update(Some(0), &groups);
    let target_state = ObjectInterfaceState::AwaitingTarget(CommandType::Move);
    let changed = prev.update(Some(0), &groups);
    let state = if changed { ObjectInterfaceState::Default } else { target_state };
    assert_eq!(state, target_state, "Interface state should NOT reset when selection is unchanged");
}

fn plain_member() -> MemberState {
    MemberState {
        deployment_center: None,
        barracks: false,
        extraction_facility: false,
        supply_tower: false,
        headquarters: false,
        tunnel: false,
    }
}

/// The interface state after validation against the active group.
fn validated(state: ObjectInterfaceState, active_type: Option<ObjectEnum>, members: Option<&[MemberState]>) -> ObjectInterfaceState {
    if interface_state_is_valid(&state, active_type, members) {
        state
    } else {
        ObjectInterfaceState::Default
    }
}

#[test]
fn validation_default_always_valid() {
    assert_eq!(validated(ObjectInterfaceState::Default, None, None), ObjectInterfaceState::Default);
}

#[test]
fn validation_awaiting_target_invalid_with_empty_selection() {
    let state = validated(ObjectInterfaceState::AwaitingTarget(CommandType::Move), None, None);
    assert_eq!(state, ObjectInterfaceState::Default, "AwaitingTarget should reset to Default with empty selection");
}

#[test]
fn validation_awaiting_target_valid_with_entities() {
    let target_state = ObjectInterfaceState::AwaitingTarget(CommandType::Attack);
    let members = [plain_member()];
    let state = validated(target_state, Some(ObjectEnum::Peacekeeper), Some(&members));
    assert_eq!(state, target_state, "AwaitingTarget should be preserved with active entities");
}

#[test]
fn validation_agent_menu_invalid_with_non_agent_group() {
    let members = [plain_member()];
    let state = validated(
        ObjectInterfaceState::AgentMenu(AgentMenuState::AgentDefault),
        Some(ObjectEnum::Peacekeeper),
        Some(&members),
    );
    assert_eq!(state, ObjectInterfaceState::Default, "AgentMenu should reset when active group is not SyndicateAgent");
}

#[test]
fn validation_agent_menu_valid_with_agent_group() {
    let target_state = ObjectInterfaceState::AgentMenu(AgentMenuState::AgentDefault);
    let members = [plain_member()];
    let state = validated(target_state, Some(ObjectEnum::SyndicateAgent), Some(&members));
    assert_eq!(state, target_state, "AgentMenu should be preserved when active group is SyndicateAgent");
}

#[test]
fn validation_structure_menu_dc_invalid_without_dc_state() {
    let members = [plain_member()];
    let state = validated(
        ObjectInterfaceState::StructureMenu(StructureMenuState::DcIdle),
        Some(ObjectEnum::DeploymentCenter),
        Some(&members),
    );
    assert_eq!(state, ObjectInterfaceState::Default, "DcIdle should reset when DC entity lacks DeploymentCenterState");
}

#[test]
fn validation_structure_menu_dc_valid_with_dc_state() {
    let target_state = ObjectInterfaceState::StructureMenu(StructureMenuState::DcIdle);
    let members = [MemberState { deployment_center: Some(false), ..plain_member() }];
    let state = validated(target_state, Some(ObjectEnum::DeploymentCenter), Some(&members));
    assert_eq!(state, target_state, "DcIdle should be preserved when DC entity has DeploymentCenterState");
}

#[test]
fn validation_dc_constructing_invalid_without_active_construction() {
    let members = [MemberState { deployment_center: Some(false), ..plain_member() }];
    let state = validated(
        ObjectInterfaceState::StructureMenu(StructureMenuState::DcConstructing),
        Some(ObjectEnum::DeploymentCenter),
        Some(&members),
    );
    assert_eq!(state, ObjectInterfaceState::Default, "DcConstructing should reset when DC has no active construction");
}

#[test]
fn validation_dc_constructing_valid_with_active_construction() {
    let target_state = ObjectInterfaceState::StructureMenu(StructureMenuState::DcConstructing);
    let members = [MemberState { deployment_center: Some(true), ..plain_member() }];
    let state = validated(target_state, Some(ObjectEnum::DeploymentCenter), Some(&members));
    assert_eq!(state, target_state, "DcConstructing should be preserved when DC has active construction");
}
