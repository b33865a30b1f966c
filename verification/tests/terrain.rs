use space_crystals::terrain::{determine_tile_type, dist_sq, simple_hash};
use space_crystals::world::TilePresetEnum;

#[test]
fn hash_known_values() {
    assert_eq!(simple_hash(0, 0), 0);
    assert_eq!(simple_hash(1, 0), 2182377942);
    assert_eq!(simple_hash(0, 1), 3299714085);
    assert_eq!(simple_hash(7, 3), 2671733127);
    assert_eq!(simple_hash(100, 200), 3929997506);
}

#[test]
fn squared_distance() {
    assert_eq!(dist_sq(3, 4, 0, 0), 25);
    assert_eq!(dist_sq(0, 0, 3, 4), 25);
    assert_eq!(dist_sq(7, 7, 7, 7), 0);
}

#[test]
fn border_rings_are_water() {
    for i in 0..64 {
        for j in [0u32, 1, 62, 63] {
            assert_eq!(determine_tile_type(i, j, 64, 64), TilePresetEnum::Water);
            assert_eq!(determine_tile_type(j, i, 64, 64), TilePresetEnum::Water);
        }
    }
}

#[test]
fn transition_band_is_rugged_or_water() {
    assert_eq!(determine_tile_type(3, 10, 64, 64), TilePresetEnum::RuggedTerrain);
    assert_eq!(determine_tile_type(3, 9, 64, 64), TilePresetEnum::Water);
}

#[test]
fn interior_features() {
    assert_eq!(determine_tile_type(30, 30, 64, 64), TilePresetEnum::Plane);
    assert_eq!(determine_tile_type(32, 32, 64, 64), TilePresetEnum::RuggedTerrain);
    assert_eq!(determine_tile_type(5, 36, 64, 64), TilePresetEnum::Mountain);
    assert_eq!(determine_tile_type(5, 38, 64, 64), TilePresetEnum::Cliff);
    assert_eq!(determine_tile_type(21, 40, 64, 64), TilePresetEnum::Water, "first lake");
    assert_eq!(determine_tile_type(47, 22, 64, 64), TilePresetEnum::Water, "second lake");
}

#[test]
fn tile_counts_of_the_standard_map() {
    let mut counts = [0u32; 5];
    for x in 0..64 {
        for z in 0..64 {
            let i = match determine_tile_type(x, z, 64, 64) {
                TilePresetEnum::Plane => 0,
                TilePresetEnum::Water => 1,
                TilePresetEnum::RuggedTerrain => 2,
                TilePresetEnum::Cliff => 3,
                TilePresetEnum::Mountain => 4,
            };
            counts[i] += 1;
        }
    }
    assert_eq!(counts, [2542, 766, 698, 53, 37]);
}
