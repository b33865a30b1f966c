//! Stats of the structures of the GDO faction. Hit points are whole numbers.
use vstd::prelude::*;

verus! {

// Deployment Center
pub const DC_MAX_HP: u32 = 1000;
pub const DC_POINT_ARMOR: u32 = 1;
pub const DC_FULL_ARMOR: u32 = 16;
pub const DC_BUILD_RADIUS: u32 = 12;
pub const DC_POWER: i32 = 20;

// Power Plant
pub const PP_MAX_HP: u32 = 350;
pub const PP_POINT_ARMOR: u32 = 1;
pub const PP_FULL_ARMOR: u32 = 4;
pub const PP_BUILD_RADIUS: u32 = 1;
pub const PP_POWER: i32 = 20;

// Barracks
pub const BK_MAX_HP: u32 = 300;
pub const BK_POINT_ARMOR: u32 = 1;
pub const BK_FULL_ARMOR: u32 = 6;
pub const BK_BUILD_RADIUS: u32 = 2;
pub const BK_POWER: i32 = -30;

// Extraction Facility
pub const EF_MAX_HP: u32 = 500;
pub const EF_POINT_ARMOR: u32 = 1;
pub const EF_FULL_ARMOR: u32 = 9;
pub const EF_BUILD_RADIUS: u32 = 2;
pub const EF_POWER: i32 = -15;

// Extraction Plate
pub const EP_MAX_HP: u32 = 85;
pub const EP_POINT_ARMOR: u32 = 2;
pub const EP_FULL_ARMOR: u32 = 2;
pub const EP_BUILD_RADIUS: u32 = 0;

// Supply Tower
pub const ST_MAX_HP: u32 = 400;
pub const ST_POINT_ARMOR: u32 = 1;
pub const ST_FULL_ARMOR: u32 = 9;
pub const ST_BUILD_RADIUS: u32 = 1;
pub const ST_POWER: i32 = -15;
pub const ST_SC_COST: u32 = 200;
pub const ST_BUILD_FRAMES: u32 = 160;

// Supply Chopper
pub const SC_MAX_HP: u32 = 150;
pub const SC_POINT_ARMOR: u32 = 1;
pub const SC_FULL_ARMOR: u32 = 1;

} // verus!
