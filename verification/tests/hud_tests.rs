use churrera_studio::config::hud::HudConfig;
use churrera_studio::config::hud_rendering::HudRenderingConfig;
use churrera_studio::hud_layout::{
    drag_counter, drag_element, drag_hud_viewport, drag_viewport, get_mut_coords, get_read_coords, has_collision,
    has_counter_collision, ink_color_name, is_counter_on, pick_counter_drag, pick_drag_target, set_counter_active,
    set_element_active, CounterDrag, DragTarget, HudCounter, HudElement,
};

#[test]
fn read_coords_by_id() {
    let c = HudRenderingConfig::default();
    assert_eq!(get_read_coords("life", &c), (5, 1));
    assert_eq!(get_read_coords("objects", &c), (16, 1));
    assert_eq!(get_read_coords("objects_icon", &c), (99, 99));
    assert_eq!(get_read_coords("keys", &c), (22, 1));
    assert_eq!(get_read_coords("timer", &c), (29, 1));
    assert_eq!(get_read_coords("unknown", &c), (99, 99));
    assert_eq!(get_read_coords("", &c), (99, 99));
}

#[test]
fn write_through_mut_coords_then_read() {
    let mut c = HudRenderingConfig::default();
    {
        let (x, y) = get_mut_coords("ammo", &mut c);
        assert_eq!((*x, *y), (99, 99));
        *x = 3;
        *y = 4;
    }
    assert_eq!(get_read_coords("ammo", &c), (3, 4));
    assert_eq!(c.ammo_x, 3);
    assert_eq!(get_read_coords("life", &c), (5, 1));
}

#[test]
fn unknown_ids_name_no_element() {
    assert_eq!(HudElement::from_id("bogus"), None);
    assert_eq!(HudElement::from_id("objects_icon"), Some(HudElement::ObjectsIcon));
    assert_eq!(HudElement::from_id("Life"), None);
}

#[test]
fn activation_and_drag() {
    let mut c = HudRenderingConfig::default();
    set_element_active(&mut c, HudElement::Killed, true);
    assert_eq!((c.killed_x, c.killed_y), (30, 2));
    set_element_active(&mut c, HudElement::Killed, false);
    assert_eq!((c.killed_x, c.killed_y), (99, 99));
    drag_element(&mut c, HudElement::Life, 40, 30);
    assert_eq!((c.life_x, c.life_y), (30, 23));
    drag_element(&mut c, HudElement::Life, -4, 7);
    assert_eq!((c.life_x, c.life_y), (0, 7));
    drag_viewport(&mut c, 9, 9);
    assert_eq!((c.viewport_x, c.viewport_y), (2, 4));
    drag_viewport(&mut c, -1, 0);
    assert_eq!((c.viewport_x, c.viewport_y), (0, 0));
}

#[test]
fn collision_with_viewport() {
    let mut c = HudRenderingConfig::default();
    assert!(!has_collision(&c));
    c.viewport_x = 0;
    drag_element(&mut c, HudElement::Ammo, 30, 10);
    assert!(!has_collision(&c)); // cells 30..32 only touch the viewport's right edge
    c.viewport_x = 1;
    assert!(has_collision(&c));
    drag_element(&mut c, HudElement::Ammo, 30, 2);
    assert!(!has_collision(&c));
    c.viewport_y = 2;
    assert!(has_collision(&c));
}

#[test]
fn drag_target_prefers_indicators() {
    let c = HudRenderingConfig::default();
    assert_eq!(pick_drag_target(&c, 6, 1), Some(DragTarget::Element(HudElement::Life)));
    assert_eq!(pick_drag_target(&c, 7, 1), None);
    assert_eq!(pick_drag_target(&c, 10, 10), Some(DragTarget::Viewport));
    assert_eq!(pick_drag_target(&c, 0, 0), None);
}

#[test]
fn ink_names() {
    assert_eq!(ink_color_name(0), Some("Black"));
    assert_eq!(ink_color_name(4), Some("Green"));
    assert_eq!(ink_color_name(7), Some("White"));
    assert_eq!(ink_color_name(8), None);
}

#[test]
fn compact_counters() {
    let mut c = HudConfig::default();
    assert!(is_counter_on(&c, HudCounter::Life));
    set_counter_active(&mut c, HudCounter::Keys, false);
    assert_eq!((c.hud_keys_x, c.hud_keys_y), (99, 99));
    set_counter_active(&mut c, HudCounter::Keys, true);
    assert_eq!((c.hud_keys_x, c.hud_keys_y), (30, 8));
    drag_counter(&mut c, HudCounter::Items, 50, 2);
    assert_eq!((c.hud_items_x, c.hud_items_y, c.hud_items_icon_x, c.hud_items_icon_y), (30, 2, 30, 2));
    drag_hud_viewport(&mut c, 5, 1);
    assert_eq!((c.viewport_x, c.viewport_y), (2, 1));
    assert!(has_counter_collision(&c));
    let c0 = HudConfig::default();
    assert!(!has_counter_collision(&c0));
    assert_eq!(pick_counter_drag(&c0, 23, 21), Some(CounterDrag::Counter(HudCounter::Life)));
    assert_eq!(pick_counter_drag(&c0, 5, 5), Some(CounterDrag::Viewport));
    assert_eq!(pick_counter_drag(&c0, 31, 23), None);
}
