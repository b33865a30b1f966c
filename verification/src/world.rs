//! Grid positions and tile presets of the 64x64 world map.
use vstd::prelude::*;

verus! {

/// A cell of the world grid.
#[derive(Clone, Copy, Debug, PartialEq, Eq, Structural, Hash)]
pub struct GridPosition {
    pub x: i32,
    pub z: i32,
}

/// The kinds of terrain a tile can have.
#[derive(Clone, Copy, Debug, PartialEq, Eq, Structural, Hash)]
pub enum TilePresetEnum {
    Plane,
    RuggedTerrain,
    Mountain,
    Cliff,
    Water,
}

/// The gameplay properties of one tile.
#[derive(Clone, Debug)]
pub struct TilePreset {
    pub value: TilePresetEnum,
    pub name: String,
    pub buildable: bool,
    pub traversible: bool,
    pub rugged: bool,
    pub drillable: bool,
    pub recruitable: bool,
}

/// A field of Space Crystals that Extraction Plates mine.
#[derive(Clone, Copy, Debug, PartialEq, Eq, Structural)]
pub struct SpaceCrystalPatch {
    pub remaining_amount: u32,
    pub initial_amount: u32,
    /// An Extraction Plate already sits on the patch.
    pub has_plate: bool,
}

} // verus!
