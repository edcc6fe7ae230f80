use churrera_studio::palette::{
    behaviour_label, clamp_selected_tile, is_standard_tile, map_ram_usage, palette_tile_count, role_tile, tile_selectable,
};
use churrera_studio::project::TileMode;

#[test]
fn palette_sizes() {
    assert_eq!(palette_tile_count(TileMode::Packed16, 99), 20);
    assert_eq!(palette_tile_count(TileMode::Packed16WithShadows, 32), 32);
    assert_eq!(palette_tile_count(TileMode::Extended48, 0), 48);
}

#[test]
fn brush_is_clamped() {
    let mut t = 25u8;
    clamp_selected_tile(&mut t, 20);
    assert_eq!(t, 0);
    let mut t = 19u8;
    clamp_selected_tile(&mut t, 20);
    assert_eq!(t, 19);
}

#[test]
fn standard_and_selectable_tiles() {
    assert!(is_standard_tile(TileMode::Packed16, 15));
    assert!(!is_standard_tile(TileMode::Packed16, 16));
    assert!(is_standard_tile(TileMode::Extended48, 47));
    assert!(!tile_selectable(19, false));
    assert!(tile_selectable(19, true));
    assert!(tile_selectable(18, false));
}

#[test]
fn role_tiles() {
    assert_eq!(role_tile(TileMode::Extended48, 19), None);
    assert_eq!(role_tile(TileMode::Extended48, 18), Some(18));
    assert_eq!(role_tile(TileMode::Packed16, 19), Some(19));
    assert_eq!(role_tile(TileMode::Packed16WithShadows, 13), None);
    assert_eq!(role_tile(TileMode::Packed16, 14), Some(14));
}

#[test]
fn behaviour_labels() {
    assert_eq!(behaviour_label(8), "🧱 8: Obstacle");
    assert_eq!(behaviour_label(10), "⚙️ 10: Interactable");
    assert_eq!(behaviour_label(24), "Маска физики (Комбинированная)");
}

#[test]
fn ram_usage() {
    assert_eq!(map_ram_usage(25, 1, TileMode::Packed16), (25, 1875));
    assert_eq!(map_ram_usage(25, 1, TileMode::Extended48), (25, 3750));
    assert_eq!(map_ram_usage(1, 1, TileMode::Packed16WithShadows), (1, 75));
    assert_eq!(map_ram_usage(0, 7, TileMode::Packed16), (0, 0));
    assert_eq!(map_ram_usage(u32::MAX, u32::MAX, TileMode::Extended48).1, (u32::MAX as u128) * (u32::MAX as u128) * 150);
}
