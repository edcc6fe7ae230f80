use churrera_studio::config::player_physics::PlayerPhysicsConfig;
use churrera_studio::config::{compact, engine, general, hud, hud_rendering, map_goals, mechanics_enemies, movement_controls, shooting_boxes, tile_behaviour, PhysicsConfig};

#[test]
fn serde_fallback_values() {
    assert!(engine::default_true());
    assert_eq!(engine::default_256(), 256);
    assert_eq!(engine::default_script_key(), "DOWN");
    assert_eq!(general::default_min_faps(), 2);
    assert_eq!(general::default_player_ini(), 1);
    assert_eq!(general::default_life(), 15);
    assert_eq!(general::default_312(), 312);
    assert_eq!(hud::default_0(), 0);
    assert_eq!(hud::default_71(), 71);
    assert_eq!(hud::default_22(), 22);
}

#[test]
fn section_defaults() {
    let e = engine::EngineConfig::default();
    assert!(e.bounding_box_8_bottom && !e.bounding_box_8_centered);
    assert_eq!(e.fanties_max_v, 256);
    assert_eq!(e.scripting_key, "DOWN");
    assert_eq!(e.max_ammo, 99);
    let g = general::GeneralConfig::default();
    assert_eq!((g.player_ini_x, g.player_ini_y), (1, 7));
    let h = hud::HudConfig::default();
    assert_eq!((h.viewport_x, h.viewport_y, h.line_of_text_attr), (1, 0, 71));
    let r = hud_rendering::HudRenderingConfig::default();
    assert_eq!((r.viewport_x, r.viewport_y, r.hud_ink), (1, 3, 4));
    let m = map_goals::MapGoalsConfig::default();
    assert_eq!((m.map_w, m.map_h, m.max_levels), (25, 1, 4));
    let me = mechanics_enemies::MechanicsEnemiesConfig::default();
    assert_eq!(me.fanties_sight_distance, 64);
    let mc = movement_controls::MovementControlsConfig::default();
    assert_eq!(mc.key_fire, "0x017f");
    assert_eq!(mc.key_up, "0x01fb");
    let s = shooting_boxes::ShootingBoxesConfig::default();
    assert_eq!((s.breakable_walls_breaking, s.timer_initial), (23, 50));
    let t = tile_behaviour::TileBehaviourConfig::default();
    assert_eq!(t.behs.len(), 48);
    assert_eq!(&t.behs[..4], &[0, 8, 8, 0]);
    assert_eq!(t.behs[15], 10);
    assert_eq!(t.behs[22], 24);
    let p = PhysicsConfig::default();
    assert_eq!(p.engine.death_count_add, 11);
    let c = compact::PhysicsConfig::default();
    assert_eq!((c.player_life_ini, c.hud_life_y, c.enemies_life_gauge), (5, 21, 1));
    assert_eq!(compact::EngineViewMode::default(), compact::EngineViewMode::SideView);
}

#[test]
fn collision_box_radio() {
    let mut c = PlayerPhysicsConfig::default();
    assert_eq!(c.bbox_type(), 1);
    for t in 0..=3u8 {
        c.select_bbox(t);
        assert_eq!(c.bbox_type(), t);
    }
    let before = c.clone();
    c.select_bbox(9);
    assert_eq!(c, before);
}

#[test]
fn bounce_and_flicker_exclude_each_other() {
    let mut c = PlayerPhysicsConfig::default();
    c.set_player_bounces(true);
    c.full_bounce = true;
    c.slow_drain = true;
    assert!(c.player_bounces && !c.player_flickers);
    c.set_player_flickers(true);
    assert!(c.player_flickers && !c.player_bounces && !c.full_bounce && !c.slow_drain);
    c.set_player_bounces(true);
    assert!(c.player_bounces && !c.player_flickers);
    c.set_player_bounces(false);
    assert!(!c.player_bounces);
}
