use churrera_studio::map_edit::{
    change_enemy_ai, display_sprite_slot, drag_enemy, enemy_id_at, erase_at, find_enemy_at, new_enemy, patrol_shape,
    place_enemy, remove_enemies_at, remove_enemy, sanitize_enemy_boundaries_interactive, select_screen, sprite_for_ai,
    sprite_label, PatrolShape,
};
use churrera_studio::project::TileMode;
use churrera_studio::screen::{Enemy, Hotspot, ScreenData};

fn live(type_id: u8, x: u8, y: u8) -> Enemy {
    Enemy { id: 1, type_id, x, y, x1: x, x2: x, y1: y, y2: y, speed: 2, sprite_slot: 0 }
}

#[test]
fn default_ai_follows_sprite_slot() {
    assert_eq!(new_enemy(5, 5, 1, 0, false, 9).type_id, 1);
    assert_eq!(new_enemy(5, 5, 1, 1, false, 9).type_id, 6);
    assert_eq!(new_enemy(5, 5, 1, 2, false, 9).type_id, 9);
    assert_eq!(new_enemy(5, 5, 1, 3, false, 9).type_id, 4);
    assert_eq!(new_enemy(5, 5, 1, 7, false, 9).type_id, 1);
    assert_eq!(new_enemy(5, 5, 11, 2, false, 9).type_id, 11);
}

#[test]
fn spawned_bounds_per_ai() {
    let e = new_enemy(13, 4, 2, 0, false, 1);
    assert_eq!((e.x1, e.x2, e.y1, e.y2), (13, 14, 4, 4));
    let e = new_enemy(0, 9, 1, 2, false, 1);
    assert_eq!(e.type_id, 9);
    assert_eq!((e.x1, e.x2, e.y1, e.y2), (0, 2, 8, 9));
    let e = new_enemy(3, 3, 5, 0, false, 1);
    assert_eq!((e.x1, e.x2, e.y1, e.y2), (0, 0, 0, 0));
    let e = new_enemy(3, 3, 4, 0, false, 1);
    assert_eq!((e.x1, e.x2, e.y1, e.y2), (3, 3, 3, 5));
    let e = new_enemy(3, 3, 4, 0, true, 1);
    assert_eq!((e.x1, e.x2, e.y1, e.y2), (3, 3, 3, 3));
    let e = new_enemy(3, 3, 12, 0, true, 1);
    assert_eq!((e.x1, e.x2, e.y1, e.y2), (3, 5, 3, 3));
    assert_eq!(e.speed, 2);
    assert_eq!(e.id, 1);
}

#[test]
fn placement_respects_three_enemies() {
    let mut s = ScreenData::default();
    assert!(place_enemy(&mut s, 1, 1, 2, 0, false, 10));
    assert!(place_enemy(&mut s, 2, 1, 2, 0, false, 11));
    assert!(place_enemy(&mut s, 3, 1, 2, 0, false, 12));
    assert!(!place_enemy(&mut s, 4, 1, 2, 0, false, 13));
    assert_eq!(s.enemies.len(), 3);
}

#[test]
fn placement_refuses_occupied_cell_and_reuses_free_slot() {
    let mut s = ScreenData::default();
    s.enemies = vec![live(2, 1, 1), live(0, 5, 5), live(3, 7, 7)];
    assert!(!place_enemy(&mut s, 1, 1, 2, 0, false, 20));
    assert!(place_enemy(&mut s, 5, 5, 2, 0, false, 21));
    assert_eq!(s.enemies.len(), 3);
    assert_eq!(s.enemies[1].id, 21);
    assert_eq!(s.enemies[1].type_id, 2);
    assert_eq!(find_enemy_at(&s, 5, 5), Some(1));
    assert_eq!(enemy_id_at(&s, 5, 5), Some(21));
    assert_eq!(enemy_id_at(&s, 6, 6), None);
}

#[test]
fn eraser_prefers_enemy_then_tile() {
    let mut s = ScreenData::default();
    s.enemies = vec![live(2, 1, 1)];
    s.tiles_matrix[16] = 8;
    assert!(erase_at(&mut s, 1, 1, TileMode::Packed16));
    assert_eq!(s.enemies[0].type_id, 0);
    assert_eq!(s.tiles_matrix[16], 8);
    assert!(!erase_at(&mut s, 1, 1, TileMode::Packed16));
    assert_eq!(s.tiles_matrix[16], 0);
}

#[test]
fn eraser_clears_hotspot_cell() {
    let mut s = ScreenData::default();
    s.set_tile_and_sync(2, 2, 18, TileMode::Packed16);
    assert!(!erase_at(&mut s, 2, 2, TileMode::Packed16));
    assert_eq!(s.hotspot, Hotspot { type_id: 0, x: 0, y: 0 });
}

#[test]
fn sanitizing_bounds() {
    let mut g = Enemy { id: 0, type_id: 6, x: 4, y: 4, x1: 1, x2: 2, y1: 3, y2: 5, speed: 2, sprite_slot: 0 };
    sanitize_enemy_boundaries_interactive(&mut g);
    assert_eq!((g.x1, g.x2, g.y1, g.y2), (0, 0, 0, 0));
    let mut l = Enemy { id: 0, type_id: 1, x: 4, y: 6, x1: 1, x2: 9, y1: 3, y2: 5, speed: 2, sprite_slot: 0 };
    sanitize_enemy_boundaries_interactive(&mut l);
    assert_eq!((l.x1, l.x2, l.y1, l.y2), (4, 9, 6, 5));
    let mut f = Enemy { id: 0, type_id: 0, x: 4, y: 6, x1: 1, x2: 9, y1: 3, y2: 5, speed: 2, sprite_slot: 0 };
    let before = f;
    sanitize_enemy_boundaries_interactive(&mut f);
    assert_eq!(f, before);
}

#[test]
fn dragging_body_and_corner() {
    let mut s = ScreenData::default();
    s.enemies = vec![Enemy { id: 0, type_id: 9, x: 4, y: 4, x1: 3, x2: 6, y1: 3, y2: 6, speed: 2, sprite_slot: 0 }];
    drag_enemy(&mut s, 0, 0, 20, -3);
    assert_eq!((s.enemies[0].x, s.enemies[0].y, s.enemies[0].x1, s.enemies[0].y1), (14, 0, 14, 0));
    drag_enemy(&mut s, 0, 2, 2, 12);
    assert_eq!((s.enemies[0].x2, s.enemies[0].y2), (2, 9));
    drag_enemy(&mut s, 5, 0, 1, 1);
    assert_eq!(s.enemies.len(), 1);
}

#[test]
fn retyping_resets_bounds() {
    let base = Enemy { id: 0, type_id: 1, x: 13, y: 8, x1: 0, x2: 0, y1: 0, y2: 0, speed: 2, sprite_slot: 0 };
    let mut e = base;
    change_enemy_ai(&mut e, 1, false);
    assert_eq!(e, base);
    change_enemy_ai(&mut e, 2, false);
    assert_eq!((e.type_id, e.x1, e.x2, e.y1, e.y2), (2, 13, 13, 8, 9));
    change_enemy_ai(&mut e, 3, false);
    assert_eq!((e.x1, e.x2, e.y1, e.y2), (13, 14, 8, 9));
    change_enemy_ai(&mut e, 4, true);
    assert_eq!((e.x1, e.x2, e.y1, e.y2), (0, 0, 0, 0));
    change_enemy_ai(&mut e, 9, true);
    assert_eq!((e.x1, e.x2, e.y1, e.y2), (12, 14, 7, 9));
    change_enemy_ai(&mut e, 11, true);
    assert_eq!((e.type_id, e.x1, e.x2, e.y1, e.y2), (11, 12, 14, 7, 9));
}

#[test]
fn sprites_and_shapes() {
    assert_eq!(sprite_for_ai(3), 8);
    assert_eq!(sprite_for_ai(6), 10);
    assert_eq!(sprite_for_ai(8), 12);
    assert_eq!(sprite_for_ai(14), 14);
    assert_eq!(sprite_for_ai(0), 8);
    let e = live(7, 3, 3);
    assert_eq!(display_sprite_slot(&e), 2);
    assert_eq!(display_sprite_slot(&Enemy { sprite_slot: 3, ..e }), 3);
    assert_eq!(patrol_shape(&Enemy { x1: 0, x2: 0, y1: 0, y2: 0, ..e }), PatrolShape::Free);
    assert_eq!(patrol_shape(&live(10, 2, 2)), PatrolShape::QuadratorBox);
    assert_eq!(patrol_shape(&live(12, 2, 2)), PatrolShape::MarrulerBox);
    assert_eq!(patrol_shape(&live(1, 2, 2)), PatrolShape::Line);
    assert_eq!(sprite_label(14, false), "Движ. Платформа (Лифт)");
    assert_eq!(sprite_label(14, true), "Враг");
}

#[test]
fn removing_enemies() {
    let mut s = ScreenData::default();
    s.enemies = vec![live(1, 1, 1), live(0, 2, 2), live(3, 1, 1)];
    remove_enemy(&mut s, 0);
    assert_eq!(s.enemies, vec![live(0, 2, 2), live(3, 1, 1)]);
    s.enemies.push(live(5, 1, 1));
    remove_enemies_at(&mut s, 1, 1);
    assert_eq!(s.enemies, vec![live(0, 2, 2)]);
}

#[test]
fn screen_selection_recentres_on_far_jumps() {
    let mut sel = 0usize;
    assert!(!select_screen(&mut sel, 1, 5));
    assert_eq!(sel, 1);
    assert!(!select_screen(&mut sel, 7, 5));
    assert!(select_screen(&mut sel, 9, 5));
    assert!(!select_screen(&mut sel, 9, 5));
    assert!(select_screen(&mut sel, 0, 5));
    assert_eq!(sel, 0);
}

#[test]
fn eraser_off_the_grid_changes_nothing() {
    let mut s = ScreenData::default();
    s.tiles_matrix[15] = 8;
    assert!(!erase_at(&mut s, 15, 0, TileMode::Packed16));
    assert_eq!(s.tiles_matrix[15], 8);
}
