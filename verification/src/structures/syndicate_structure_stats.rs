//! Stats of the structures of the Syndicate faction. Hit points are whole numbers.
use vstd::prelude::*;

verus! {

// Tunnel
pub const TUNNEL_T1_MAX_HP: u32 = 600;
pub const TUNNEL_T2_MAX_HP: u32 = 800;
pub const TUNNEL_T3_MAX_HP: u32 = 1000;
pub const TUNNEL_POINT_ARMOR: u32 = 1;
pub const TUNNEL_FULL_ARMOR: u32 = 16;
pub const TUNNEL_T1_SPACE: u32 = 20;
pub const TUNNEL_T2_SPACE: u32 = 30;
pub const TUNNEL_T3_SPACE: u32 = 40;
pub const TUNNEL_T1_AREA_RADIUS: u32 = 3;
pub const TUNNEL_T2_AREA_RADIUS: u32 = 4;
pub const TUNNEL_T3_AREA_RADIUS: u32 = 5;
pub const TUNNEL_SIGHT_RANGE: u32 = 5;
/// Thirty seconds at sixteen frames per second.
pub const TUNNEL_CONSTRUCTION_FRAMES: u32 = 480;
/// Thirty seconds at sixteen frames per second.
pub const TUNNEL_UPGRADE_FRAMES: u32 = 480;

// Headquarters
pub const HQ_MAX_HP: u32 = 400;
pub const HQ_POINT_ARMOR: u32 = 1;
pub const HQ_FULL_ARMOR: u32 = 4;
pub const HQ_SC_COST: u32 = 200;
/// Twenty-five seconds at sixteen frames per second.
pub const HQ_BUILD_FRAMES: u32 = 400;

} // verus!
