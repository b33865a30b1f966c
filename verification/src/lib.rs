//! Verified game rules of the Space Crystals real-time strategy game:
//! unit archetypes, structure production and tunnel networks, grid placement,
//! A* pathfinding on the tile grid, combat targeting rules, control groups
//! and the resource economy.
use vstd::prelude::*;

pub mod cells;
pub mod units;
pub mod world;
pub mod occupancy;
pub mod pathfinding;
pub mod objects;
pub mod structures;
pub mod placement;
pub mod fog;
pub mod interface;
pub mod economy;
pub mod selection;
pub mod combat;
pub mod terrain;
pub mod commands;
pub mod unit_data;
pub mod movement;
pub mod behavior;


verus! {

} // verus!
