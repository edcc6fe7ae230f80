use churrera_studio::project::{default_project_font, default_tile_mode, ProjectData, TileMode};
use churrera_studio::screen::ScreenData;

#[test]
fn tile_mode_tables() {
    assert_eq!(TileMode::Packed16.expected_dimensions(), (256, 48));
    assert_eq!(TileMode::Packed16WithShadows.expected_dimensions(), (256, 96));
    assert_eq!(TileMode::Extended48.expected_dimensions(), (256, 48));
    assert_eq!(TileMode::Packed16.max_paintable_tile_index(), 15);
    assert_eq!(TileMode::Packed16WithShadows.max_paintable_tile_index(), 15);
    assert_eq!(TileMode::Extended48.max_paintable_tile_index(), 47);
    assert_eq!(TileMode::Packed16.behaviours_count(), 16);
    assert_eq!(TileMode::Extended48.behaviours_count(), 48);
    assert_eq!(TileMode::Packed16.name(), "16 Tiles (Экономный)");
    assert_eq!(TileMode::Packed16WithShadows.name(), "16 Tiles + Автошейдинг");
    assert_eq!(TileMode::Extended48.name(), "48 Tiles (Максимальный)");
    assert!(TileMode::Extended48.description().starts_with("Максимальное разнообразие графики (0-47)."));
    assert_eq!(default_tile_mode(), TileMode::Packed16);
}

#[test]
fn default_behaviours_per_mode() {
    let base = vec![0u8, 0, 8, 8, 8, 8, 1, 1, 8, 0, 1, 8, 0, 8, 8, 8];
    assert_eq!(TileMode::Packed16.default_behaviours(), base);
    assert_eq!(TileMode::Packed16WithShadows.default_behaviours(), base);
    let ext = TileMode::Extended48.default_behaviours();
    assert_eq!(ext.len(), 48);
    assert_eq!(&ext[..16], &base[..]);
    assert!(ext[16..].iter().all(|&b| b == 0));
    for m in [TileMode::Packed16, TileMode::Packed16WithShadows, TileMode::Extended48] {
        assert_eq!(m.default_behaviours().len(), m.behaviours_count());
        assert!(m.max_paintable_tile_index() < m.behaviours_count());
    }
}

#[test]
fn starter_font_has_a_and_b() {
    let f = default_project_font();
    assert_eq!(f.len(), 768);
    assert_eq!(&f[264..272], &[0x18, 0x24, 0x42, 0x7e, 0x42, 0x42, 0x42, 0x00]);
    assert_eq!(&f[272..280], &[0x7c, 0x42, 0x42, 0x7c, 0x42, 0x42, 0x7c, 0x00]);
    assert_eq!(f.iter().filter(|&&b| b != 0).count(), 14);
}

#[test]
fn new_project() {
    let p = ProjectData::default();
    assert_eq!(p.screens.len(), 1);
    let s = &p.screens[&0];
    assert_eq!(s.tiles_matrix, vec![0u8; 150]);
    assert_eq!(p.tile_mode, TileMode::Packed16);
    assert_eq!(p.tile_behaviours, TileMode::Packed16.default_behaviours());
    assert_eq!(p.font_data, default_project_font());
    assert!(!p.role_pushbox_active && !p.role_lock_active && !p.role_refill_active);
    assert!(!p.role_collectable_active && !p.role_key_active && !p.role_alt_bg_active);
    assert_eq!(p.config.engine.scripting_key, "DOWN");
    assert_eq!(p.config.general.player_ini_y, 7);
    assert_eq!(p.config.hud.hud_life_x, 22);
}

#[test]
fn changing_tile_mode_resets_behaviours() {
    let mut p = ProjectData::default();
    p.tile_behaviours[3] = 24;
    p.set_tile_mode(TileMode::Packed16);
    assert_eq!(p.tile_behaviours[3], 24);
    p.set_tile_mode(TileMode::Extended48);
    assert_eq!(p.tile_mode, TileMode::Extended48);
    assert_eq!(p.tile_behaviours, TileMode::Extended48.default_behaviours());
}

#[test]
fn put_then_take_gives_the_screen_back() {
    let mut p = ProjectData::default();
    let mut s = ScreenData::default();
    s.tiles_matrix[10] = 7;
    p.put_screen(3, s);
    let back = p.take_screen(3);
    assert_eq!(back.tiles_matrix[10], 7);
    assert!(!p.screens.contains_key(&3));
    let blank = p.take_screen(42);
    assert_eq!(blank.tiles_matrix, vec![0u8; 150]);
}

#[test]
fn painting_keeps_other_screens() {
    let mut p = ProjectData::default();
    p.paint_tile(0, 14, 9, 5);
    p.paint_tile(1, 0, 0, 16);
    assert_eq!(p.screens[&0].tiles_matrix[149], 5);
    assert_eq!(p.screens[&1].hotspot.type_id, 2);
    assert_eq!(p.screens.len(), 2);
}
