use space_crystals::objects::ObjectEnum;
use space_crystals::placement::vision_center;

/// The footprint that offsets an entity's vision center: a structure's size,
/// nothing for a unit (whose size is in space units, not grid cells).
fn vision_size(object: ObjectEnum, size: (u32, u32)) -> Option<(u32, u32)> {
    if object.is_structure() {
        Some(size)
    } else {
        None
    }
}

#[test]
fn unit_object_instance_is_not_structure() {
    assert!(!ObjectEnum::Peacekeeper.is_structure());
    assert!(!ObjectEnum::SupplyChopper.is_structure());
    assert!(!ObjectEnum::SyndicateAgent.is_structure());
}

#[test]
fn structure_object_instance_is_structure() {
    assert!(ObjectEnum::DeploymentCenter.is_structure());
    assert!(ObjectEnum::PowerPlant.is_structure());
    assert!(ObjectEnum::Barracks.is_structure());
}

#[test]
fn unit_vision_center_has_no_size_offset() {
    let size = vision_size(ObjectEnum::Peacekeeper, (24, 24));
    assert!(size.is_none());
    let (cx, cz) = vision_center(32, 32, size);
    assert_eq!((cx, cz), (32, 32));
}

#[test]
fn structure_vision_center_has_size_offset() {
    let size = vision_size(ObjectEnum::DeploymentCenter, (4, 4));
    assert!(size.is_some());
    let (cx, cz) = vision_center(30, 30, size);
    assert_eq!((cx, cz), (32, 32));
}

#[test]
fn peacekeeper_size_is_space_units_not_grid() {
    let (bad_cx, bad_cz) = vision_center(32, 32, Some((24, 24)));
    assert_eq!((bad_cx, bad_cz), (44, 44));
    let (good_cx, good_cz) = vision_center(32, 32, None);
    assert_eq!((good_cx, good_cz), (32, 32));
}

#[test]
fn supply_chopper_vision_center_no_offset() {
    let size = vision_size(ObjectEnum::SupplyChopper, (1, 1));
    assert!(size.is_none());
    let (cx, cz) = vision_center(20, 20, size);
    assert_eq!((cx, cz), (20, 20));
}

#[test]
fn syndicate_agent_vision_center_no_offset() {
    let size = vision_size(ObjectEnum::SyndicateAgent, (36, 36));
    assert!(size.is_none());
    let (cx, cz) = vision_center(15, 40, size);
    assert_eq!((cx, cz), (15, 40));
}

#[test]
fn entity_without_object_instance_no_offset() {
    let size: Option<(u32, u32)> = None;
    let (cx, cz) = vision_center(10, 10, size);
    assert_eq!((cx, cz), (10, 10));
}

#[test]
fn tunnel_vision_center_has_structure_offset() {
    let tunnel_size = (4u32, 4u32);
    let size = vision_size(ObjectEnum::Tunnel, tunnel_size);
    assert!(size.is_some());
    let (cx, cz) = vision_center(25, 25, size);
    let expected_cx = 25 + (tunnel_size.0 as i32) / 2;
    let expected_cz = 25 + (tunnel_size.1 as i32) / 2;
    assert_eq!((cx, cz), (expected_cx, expected_cz));
}
