use churrera_studio::project::{ProjectData, TileMode};
use churrera_studio::screen::{default_speed, generate_ui_id, hotspot_source_tile, Enemy, Hotspot, ScreenData};

fn enemy(type_id: u8, x: u8, y: u8) -> Enemy {
    Enemy { id: 7, type_id, x, y, x1: x, x2: x, y1: y, y2: y, speed: 2, sprite_slot: 0 }
}

#[test]
fn blank_screen_has_150_empty_tiles() {
    let s = ScreenData::default();
    assert_eq!(s.tiles_matrix.len(), 150);
    assert!(s.tiles_matrix.iter().all(|&t| t == 0));
    assert!(s.enemies.is_empty());
    assert_eq!(s.hotspot, Hotspot { type_id: 0, x: 0, y: 0 });
}

#[test]
fn ordinary_tile_is_written_at_row_major_index() {
    let mut s = ScreenData::default();
    s.set_tile_and_sync(3, 2, 8, TileMode::Packed16);
    assert_eq!(s.tiles_matrix[2 * 15 + 3], 8);
    assert_eq!(s.tiles_matrix.iter().filter(|&&t| t != 0).count(), 1);
    assert_eq!(s.hotspot, Hotspot { type_id: 0, x: 0, y: 0 });
}

#[test]
fn refill_tile_becomes_hotspot_type_2() {
    let mut s = ScreenData::default();
    s.tiles_matrix[4 * 15 + 5] = 9;
    s.set_tile_and_sync(5, 4, 16, TileMode::Extended48);
    assert_eq!(s.hotspot, Hotspot { type_id: 2, x: 5, y: 4 });
    assert_eq!(s.tiles_matrix[4 * 15 + 5], 0);
}

#[test]
fn collectable_and_key_tiles_become_hotspots() {
    let mut s = ScreenData::default();
    s.set_tile_and_sync(1, 1, 17, TileMode::Packed16);
    assert_eq!(s.hotspot, Hotspot { type_id: 3, x: 1, y: 1 });
    s.set_tile_and_sync(2, 9, 18, TileMode::Packed16);
    assert_eq!(s.hotspot, Hotspot { type_id: 1, x: 2, y: 9 });
    assert_eq!(s.tiles_matrix[9 * 15 + 2], 0);
}

#[test]
fn ordinary_tile_over_hotspot_clears_it() {
    let mut s = ScreenData::default();
    s.set_tile_and_sync(6, 3, 18, TileMode::Packed16);
    s.set_tile_and_sync(6, 3, 14, TileMode::Packed16);
    assert_eq!(s.hotspot, Hotspot { type_id: 0, x: 0, y: 0 });
    assert_eq!(s.tiles_matrix[3 * 15 + 6], 14);
}

#[test]
fn ordinary_tile_elsewhere_keeps_hotspot() {
    let mut s = ScreenData::default();
    s.set_tile_and_sync(6, 3, 17, TileMode::Packed16);
    s.set_tile_and_sync(7, 3, 4, TileMode::Packed16);
    assert_eq!(s.hotspot, Hotspot { type_id: 3, x: 6, y: 3 });
}

#[test]
fn cell_outside_matrix_changes_nothing() {
    let mut s = ScreenData::default();
    s.set_tile_and_sync(0, 10, 16, TileMode::Packed16);
    assert_eq!(s.hotspot, Hotspot { type_id: 0, x: 0, y: 0 });
    assert!(s.tiles_matrix.iter().all(|&t| t == 0));
    s.set_tile_and_sync(255, 255, 5, TileMode::Packed16);
    assert!(s.tiles_matrix.iter().all(|&t| t == 0));
}

#[test]
fn placing_twice_equals_placing_once() {
    let mut once = ScreenData::default();
    once.set_tile_and_sync(4, 4, 16, TileMode::Packed16);
    let mut twice = ScreenData::default();
    twice.set_tile_and_sync(4, 4, 16, TileMode::Packed16);
    twice.set_tile_and_sync(4, 4, 16, TileMode::Packed16);
    assert_eq!(once.tiles_matrix, twice.tiles_matrix);
    assert_eq!(once.hotspot, twice.hotspot);
}

#[test]
fn enemies_untouched_by_tile_placement() {
    let mut s = ScreenData::default();
    s.enemies.push(enemy(1, 2, 2));
    s.set_tile_and_sync(2, 2, 8, TileMode::Packed16);
    assert_eq!(s.enemies, vec![enemy(1, 2, 2)]);
}

#[test]
fn hotspot_is_drawn_with_its_source_tile() {
    assert_eq!(hotspot_source_tile(1), 18);
    assert_eq!(hotspot_source_tile(2), 16);
    assert_eq!(hotspot_source_tile(3), 17);
    assert_eq!(hotspot_source_tile(0), 0);
    assert_eq!(hotspot_source_tile(9), 0);
    for t in 16u8..=18 {
        let mut s = ScreenData::default();
        s.set_tile_and_sync(0, 0, t, TileMode::Packed16);
        assert_eq!(hotspot_source_tile(s.hotspot.type_id), t);
    }
}

#[test]
fn defaults_of_entities() {
    assert_eq!(default_speed(), 2);
    assert_eq!(Enemy::default(), Enemy { id: 0, type_id: 0, x: 0, y: 0, x1: 0, x2: 0, y1: 0, y2: 0, speed: 0, sprite_slot: 0 });
    assert_eq!(Hotspot::default(), Hotspot { type_id: 0, x: 0, y: 0 });
}

#[test]
fn ui_ids_come_from_the_clock() {
    assert!(generate_ui_id() != 0);
    assert_eq!(churrera_studio::clock::ui_id_from_nanos((1u128 << 64) + 5), 5);
    assert_eq!(churrera_studio::clock::ui_id_from_nanos(1_700_000_000_000_000_000), 1_700_000_000_000_000_000);
    assert_eq!(churrera_studio::clock::ui_id_from_reading(None), 0);
    assert_eq!(churrera_studio::clock::ui_id_from_reading(Some((3u128 << 64) + 9)), 9);
    assert_eq!(churrera_studio::clock::ui_id_from_reading(Some(42)), 42);
}

#[test]
fn project_paint_tile_creates_missing_screen() {
    let mut p = ProjectData::default();
    p.paint_tile(5, 1, 1, 17);
    let s = p.take_screen(5);
    assert_eq!(s.hotspot, Hotspot { type_id: 3, x: 1, y: 1 });
    assert!(p.screens.contains_key(&0));
    assert!(!p.screens.contains_key(&5));
}

#[test]
fn cell_off_the_grid_changes_nothing() {
    let mut s = ScreenData::default();
    s.set_tile_and_sync(15, 0, 5, TileMode::Packed16);
    assert!(s.tiles_matrix.iter().all(|&t| t == 0));
    s.set_tile_and_sync(15, 0, 18, TileMode::Packed16);
    assert_eq!(s.hotspot, Hotspot { type_id: 0, x: 0, y: 0 });
    assert!(s.tiles_matrix.iter().all(|&t| t == 0));
    s.set_tile_and_sync(14, 9, 5, TileMode::Packed16);
    assert_eq!(s.tiles_matrix[149], 5);
}
