//! Layout of the HUD on the 32x24 character screen of the Spectrum: the
//! 30x20 game viewport and the seven 2x1 indicators, placed by their left
//! cell. A coordinate of 99 switches an indicator off.

use vstd::prelude::*;
use crate::config::hud::HudConfig;
use crate::config::hud_rendering::HudRenderingConfig;
use crate::text::str_equal;

verus! {

/// Coordinate value that switches a HUD element off.
pub const HUD_OFF: u32 = 99;

/// The HUD indicators, in the order the editor lists them.
#[derive(Clone, Copy, Debug, PartialEq, Eq, Structural)]
pub enum HudElement {
    Life,
    Objects,
    ObjectsIcon,
    Keys,
    Killed,
    Ammo,
    Timer,
}

/// The element an editor id names: "life", "objects", "objects_icon",
/// "keys", "killed", "ammo" or "timer".
pub open spec fn element_of_id(id: Seq<char>) -> Option<HudElement> {
    if id == "life"@ {
        Some(HudElement::Life)
    } else if id == "objects"@ {
        Some(HudElement::Objects)
    } else if id == "objects_icon"@ {
        Some(HudElement::ObjectsIcon)
    } else if id == "keys"@ {
        Some(HudElement::Keys)
    } else if id == "killed"@ {
        Some(HudElement::Killed)
    } else if id == "ammo"@ {
        Some(HudElement::Ammo)
    } else if id == "timer"@ {
        Some(HudElement::Timer)
    } else {
        None
    }
}

/// Position (x, y) of an element in a configuration.
pub open spec fn coords_of(cfg: HudRenderingConfig, e: HudElement) -> (u32, u32) {
    match e {
        HudElement::Life => (cfg.life_x, cfg.life_y),
        HudElement::Objects => (cfg.objects_x, cfg.objects_y),
        HudElement::ObjectsIcon => (cfg.objects_icon_x, cfg.objects_icon_y),
        HudElement::Keys => (cfg.keys_x, cfg.keys_y),
        HudElement::Killed => (cfg.killed_x, cfg.killed_y),
        HudElement::Ammo => (cfg.ammo_x, cfg.ammo_y),
        HudElement::Timer => (cfg.timer_x, cfg.timer_y),
    }
}

/// The configuration with element `e` moved to `(x, y)`.
pub open spec fn with_coords(cfg: HudRenderingConfig, e: HudElement, x: u32, y: u32) -> HudRenderingConfig {
    match e {
        HudElement::Life => HudRenderingConfig { life_x: x, life_y: y, ..cfg },
        HudElement::Objects => HudRenderingConfig { objects_x: x, objects_y: y, ..cfg },
        HudElement::ObjectsIcon => HudRenderingConfig { objects_icon_x: x, objects_icon_y: y, ..cfg },
        HudElement::Keys => HudRenderingConfig { keys_x: x, keys_y: y, ..cfg },
        HudElement::Killed => HudRenderingConfig { killed_x: x, killed_y: y, ..cfg },
        HudElement::Ammo => HudRenderingConfig { ammo_x: x, ammo_y: y, ..cfg },
        HudElement::Timer => HudRenderingConfig { timer_x: x, timer_y: y, ..cfg },
    }
}

impl HudElement {
    /// Reads an editor id (see `element_of_id`).
    pub fn from_id(id: &str) -> (r: Option<HudElement>)
        ensures
            r == element_of_id(id@),
    {
        if str_equal(id, "life") {
            Some(HudElement::Life)
        } else if str_equal(id, "objects") {
            Some(HudElement::Objects)
        } else if str_equal(id, "objects_icon") {
            Some(HudElement::ObjectsIcon)
        } else if str_equal(id, "keys") {
            Some(HudElement::Keys)
        } else if str_equal(id, "killed") {
            Some(HudElement::Killed)
        } else if str_equal(id, "ammo") {
            Some(HudElement::Ammo)
        } else if str_equal(id, "timer") {
            Some(HudElement::Timer)
        } else {
            None
        }
    }
}

/// Position of an element in the configuration.
pub fn element_coords(cfg: &HudRenderingConfig, e: HudElement) -> (r: (u32, u32))
    ensures
        r == coords_of(*cfg, e),
{
    match e {
        HudElement::Life => (cfg.life_x, cfg.life_y),
        HudElement::Objects => (cfg.objects_x, cfg.objects_y),
        HudElement::ObjectsIcon => (cfg.objects_icon_x, cfg.objects_icon_y),
        HudElement::Keys => (cfg.keys_x, cfg.keys_y),
        HudElement::Killed => (cfg.killed_x, cfg.killed_y),
        HudElement::Ammo => (cfg.ammo_x, cfg.ammo_y),
        HudElement::Timer => (cfg.timer_x, cfg.timer_y),
    }
}

/// Moves an element to `(x, y)`.
pub fn set_element_coords(cfg: &mut HudRenderingConfig, e: HudElement, x: u32, y: u32)
    ensures
        *final(cfg) == with_coords(*old(cfg), e, x, y),
{
    match e {
        HudElement::Life => {
            cfg.life_x = x;
            cfg.life_y = y;
        },
        HudElement::Objects => {
            cfg.objects_x = x;
            cfg.objects_y = y;
        },
        HudElement::ObjectsIcon => {
            cfg.objects_icon_x = x;
            cfg.objects_icon_y = y;
        },
        HudElement::Keys => {
            cfg.keys_x = x;
            cfg.keys_y = y;
        },
        HudElement::Killed => {
            cfg.killed_x = x;
            cfg.killed_y = y;
        },
        HudElement::Ammo => {
            cfg.ammo_x = x;
            cfg.ammo_y = y;
        },
        HudElement::Timer => {
            cfg.timer_x = x;
            cfg.timer_y = y;
        },
    }
}

/// Position of the element named by `id`; an unknown id reads as switched
/// off, (99, 99).
pub fn get_read_coords(id: &str, hud_config: &HudRenderingConfig) -> (r: (u32, u32))
    ensures
        r == match element_of_id(id@) {
            Some(e) => coords_of(*hud_config, e),
            None => (99u32, 99u32),
        },
{
    match HudElement::from_id(id) {
        Some(e) => element_coords(hud_config, e),
        None => (HUD_OFF, HUD_OFF),
    }
}

/// Mutable access to the position fields of the element named by `id`,
/// which must be one of the seven element ids.
pub fn get_mut_coords<'a>(id: &str, hud_config: &'a mut HudRenderingConfig) -> (r: (&'a mut u32, &'a mut u32))
    requires
        element_of_id(id@) is Some,
    ensures
        (*r.0, *r.1) == coords_of(*old(hud_config), element_of_id(id@).unwrap()),
        *final(hud_config) == with_coords(*old(hud_config), element_of_id(id@).unwrap(), *final(r.0), *final(r.1)),
{
    let e = HudElement::from_id(id);
    match e {
        Some(HudElement::Life) => (&mut hud_config.life_x, &mut hud_config.life_y),
        Some(HudElement::Objects) => (&mut hud_config.objects_x, &mut hud_config.objects_y),
        Some(HudElement::ObjectsIcon) => (&mut hud_config.objects_icon_x, &mut hud_config.objects_icon_y),
        Some(HudElement::Keys) => (&mut hud_config.keys_x, &mut hud_config.keys_y),
        Some(HudElement::Killed) => (&mut hud_config.killed_x, &mut hud_config.killed_y),
        Some(HudElement::Ammo) => (&mut hud_config.ammo_x, &mut hud_config.ammo_y),
        Some(HudElement::Timer) => (&mut hud_config.timer_x, &mut hud_config.timer_y),
        None => (&mut hud_config.timer_x, &mut hud_config.timer_y),
    }
}


/// Moving an element and reading it back gives the new position; every
/// other element keeps its position.
pub proof fn lemma_coords_read_back(cfg: HudRenderingConfig, e: HudElement, other: HudElement, x: u32, y: u32)
    requires
        other != e,
    ensures
        coords_of(with_coords(cfg, e, x, y), e) == (x, y),
        coords_of(with_coords(cfg, e, x, y), other) == coords_of(cfg, other),
        with_coords(cfg, e, x, y).viewport_x == cfg.viewport_x,
        with_coords(cfg, e, x, y).viewport_y == cfg.viewport_y,
{
}

/// Whether the sidebar shows an element as active: its x is not 99.
pub open spec fn is_active(cfg: HudRenderingConfig, e: HudElement) -> bool {
    coords_of(cfg, e).0 != 99
}

/// Whether the canvas draws an element: neither coordinate is 99.
pub open spec fn is_drawn(cfg: HudRenderingConfig, e: HudElement) -> bool {
    coords_of(cfg, e).0 != 99 && coords_of(cfg, e).1 != 99
}

/// Switches an element on from the sidebar (it appears at cell (30, 2),
/// right of the default viewport) or off (both coordinates 99).
pub fn set_element_active(cfg: &mut HudRenderingConfig, e: HudElement, active: bool)
    ensures
        *final(cfg) == if active { with_coords(*old(cfg), e, 30, 2) } else { with_coords(*old(cfg), e, 99, 99) },
{
    if active {
        set_element_coords(cfg, e, 30, 2);
    } else {
        set_element_coords(cfg, e, HUD_OFF, HUD_OFF);
    }
}

/// The sidebar checkbox reads back what was set: an element switched on is
/// active and drawn, one switched off is neither; the other elements and
/// the viewport keep their places.
pub proof fn lemma_element_switch_reads_back(cfg: HudRenderingConfig, e: HudElement, other: HudElement)
    requires
        other != e,
    ensures
        is_active(with_coords(cfg, e, 30, 2), e) && is_drawn(with_coords(cfg, e, 30, 2), e),
        !is_active(with_coords(cfg, e, 99, 99), e) && !is_drawn(with_coords(cfg, e, 99, 99), e),
        coords_of(with_coords(cfg, e, 30, 2), other) == coords_of(cfg, other),
        coords_of(with_coords(cfg, e, 99, 99), other) == coords_of(cfg, other),
{
    lemma_coords_read_back(cfg, e, other, 30, 2);
    lemma_coords_read_back(cfg, e, other, 99, 99);
}

/// `v` clamped to `0..=max`.
pub open spec fn clamp_to(v: int, max: int) -> int {
    if v < 0 { 0 } else if v > max { max } else { v }
}

/// Drops element `e` at the mouse cell `(cell_x, cell_y)`: the 2-cell-wide
/// indicator stays on the 32x24 screen (x in 0..=30, y in 0..=23).
pub fn drag_element(cfg: &mut HudRenderingConfig, e: HudElement, cell_x: i32, cell_y: u32)
    ensures
        *final(cfg) == with_coords(*old(cfg), e, clamp_to(cell_x as int, 30) as u32, clamp_to(cell_y as int, 23) as u32),
{
    let x: u32 = if cell_x < 0 { 0 } else if cell_x > 30 { 30 } else { cell_x as u32 };
    let y: u32 = if cell_y > 23 { 23 } else { cell_y };
    set_element_coords(cfg, e, x, y);
}

/// Drops the game viewport at the mouse cell: the 30x20 viewport stays on
/// the 32x24 screen (x in 0..=2, y in 0..=4).
pub fn drag_viewport(cfg: &mut HudRenderingConfig, cell_x: i32, cell_y: u32)
    ensures
        *final(cfg) == (HudRenderingConfig {
            viewport_x: clamp_to(cell_x as int, 2) as u32,
            viewport_y: clamp_to(cell_y as int, 4) as u32,
            ..*old(cfg)
        }),
{
    cfg.viewport_x = if cell_x < 0 { 0 } else if cell_x > 2 { 2 } else { cell_x as u32 };
    cfg.viewport_y = if cell_y > 4 { 4 } else { cell_y };
}

/// Whether the 2x1 indicator at `(x, y)` overlaps the 30x20 viewport at
/// `(vx, vy)` in at least one cell (touching edges do not count).
pub open spec fn overlaps_viewport(x: u32, y: u32, vx: u32, vy: u32) -> bool {
    x < vx + 30 && x + 2 > vx && y < vy + 20 && y + 1 > vy
}

fn overlaps(x: u32, y: u32, vx: u32, vy: u32) -> (r: bool)
    ensures
        r == overlaps_viewport(x, y, vx, vy),
{
    let (x, y, vx, vy) = (x as u64, y as u64, vx as u64, vy as u64);
    x < vx + 30 && x + 2 > vx && y < vy + 20 && y + 1 > vy
}

/// The HUD elements in editor order.
pub open spec fn all_elements() -> Seq<HudElement> {
    seq![
        HudElement::Life,
        HudElement::Objects,
        HudElement::ObjectsIcon,
        HudElement::Keys,
        HudElement::Killed,
        HudElement::Ammo,
        HudElement::Timer,
    ]
}

fn element_list() -> (r: Vec<HudElement>)
    ensures
        r@ == all_elements(),
{
    let r = vec![
        HudElement::Life,
        HudElement::Objects,
        HudElement::ObjectsIcon,
        HudElement::Keys,
        HudElement::Killed,
        HudElement::Ammo,
        HudElement::Timer,
    ];
    assert(r@ =~= all_elements());
    r
}

/// Whether some drawn indicator reaches into the game viewport, which the
/// editor reports as an error.
pub open spec fn hud_collides(cfg: HudRenderingConfig) -> bool {
    exists|e: HudElement|
        is_drawn(cfg, e) && #[trigger] overlaps_viewport(
            coords_of(cfg, e).0,
            coords_of(cfg, e).1,
            cfg.viewport_x,
            cfg.viewport_y,
        )
}

/// Checks the HUD for indicators inside the game viewport.
pub fn has_collision(cfg: &HudRenderingConfig) -> (r: bool)
    ensures
        r == hud_collides(*cfg),
{
    let elements = element_list();
    let mut i: usize = 0;
    while i < elements.len()
        invariant
            elements@ == all_elements(),
            i <= elements.len(),
            forall|j: int|
                0 <= j < i ==> !(is_drawn(*cfg, #[trigger] all_elements()[j]) && overlaps_viewport(
                    coords_of(*cfg, all_elements()[j]).0,
                    coords_of(*cfg, all_elements()[j]).1,
                    cfg.viewport_x,
                    cfg.viewport_y,
                )),
        decreases elements.len() - i,
    {
        let e = elements[i];
        let (x, y) = element_coords(cfg, e);
        if x != HUD_OFF && y != HUD_OFF && overlaps(x, y, cfg.viewport_x, cfg.viewport_y) {
            return true;
        }
        i += 1;
    }
    assert forall|e: HudElement| !(is_drawn(*cfg, e) && #[trigger] overlaps_viewport(
        coords_of(*cfg, e).0,
        coords_of(*cfg, e).1,
        cfg.viewport_x,
        cfg.viewport_y,
    )) by {
        let j: int = match e {
            HudElement::Life => 0,
            HudElement::Objects => 1,
            HudElement::ObjectsIcon => 2,
            HudElement::Keys => 3,
            HudElement::Killed => 4,
            HudElement::Ammo => 5,
            HudElement::Timer => 6,
        };
        assert(all_elements()[j] == e);
    }
    false
}

/// What a drag that starts at a cell picks up.
#[derive(Clone, Copy, Debug, PartialEq, Eq, Structural)]
pub enum DragTarget {
    Element(HudElement),
    Viewport,
}

/// Whether the cell `(cx, cy)` lies on the 2x1 indicator at `(x, y)`.
pub open spec fn on_indicator(cx: u32, cy: u32, x: u32, y: u32) -> bool {
    x <= cx && cx < x + 2 && cy == y
}

/// Whether the cell `(cx, cy)` lies in the 30x20 viewport at `(vx, vy)`.
pub open spec fn in_viewport(cx: u32, cy: u32, vx: u32, vy: u32) -> bool {
    vx <= cx && cx < vx + 30 && vy <= cy && cy < vy + 20
}

/// The first drawn indicator (in editor order) under cell `(cx, cy)`,
/// looking from position `from` of the list on.
pub open spec fn indicator_at_from(cfg: HudRenderingConfig, cx: u32, cy: u32, from: int) -> Option<HudElement>
    decreases 7 - from,
{
    if from < 0 || from >= 7 {
        None
    } else {
        let e = all_elements()[from];
        if is_drawn(cfg, e) && on_indicator(cx, cy, coords_of(cfg, e).0, coords_of(cfg, e).1) {
            Some(e)
        } else {
            indicator_at_from(cfg, cx, cy, from + 1)
        }
    }
}

/// What a drag starting at cell `(cx, cy)` picks up: the first drawn
/// indicator there, else the viewport if the cell is in it, else nothing.
pub open spec fn drag_target_at(cfg: HudRenderingConfig, cx: u32, cy: u32) -> Option<DragTarget> {
    match indicator_at_from(cfg, cx, cy, 0) {
        Some(e) => Some(DragTarget::Element(e)),
        None => if in_viewport(cx, cy, cfg.viewport_x, cfg.viewport_y) {
            Some(DragTarget::Viewport)
        } else {
            None
        },
    }
}

/// Picks what a drag starting at cell `(cx, cy)` moves.
pub fn pick_drag_target(cfg: &HudRenderingConfig, cx: u32, cy: u32) -> (r: Option<DragTarget>)
    ensures
        r == drag_target_at(*cfg, cx, cy),
{
    let elements = element_list();
    let mut i: usize = 0;
    while i < elements.len()
        invariant
            elements@ == all_elements(),
            i <= 7,
            indicator_at_from(*cfg, cx, cy, 0) == indicator_at_from(*cfg, cx, cy, i as int),
        decreases 7 - i,
    {
        let e = elements[i];
        let (x, y) = element_coords(cfg, e);
        if x != HUD_OFF && y != HUD_OFF && x as u64 <= cx as u64 && (cx as u64) < x as u64 + 2 && cy == y {
            return Some(DragTarget::Element(e));
        }
        i += 1;
    }
    let (vx, vy) = (cfg.viewport_x as u64, cfg.viewport_y as u64);
    if vx <= cx as u64 && (cx as u64) < vx + 30 && vy <= cy as u64 && (cy as u64) < vy + 20 {
        Some(DragTarget::Viewport)
    } else {
        None
    }
}

/// Name of a Spectrum ink colour 0..=7 for the HUD ink setting.
pub fn ink_color_name(ink: u32) -> (r: Option<&'static str>)
    ensures
        ink < 8 <==> r is Some,
        r matches Some(n) ==> n@ == seq!["Black"@, "Blue"@, "Red"@, "Magenta"@, "Green"@, "Cyan"@, "Yellow"@, "White"@][ink as int],
{
    let colors: [&'static str; 8] = ["Black", "Blue", "Red", "Magenta", "Green", "Cyan", "Yellow", "White"];
    if ink < 8 {
        Some(colors[ink as usize])
    } else {
        None
    }
}


// The four counters of the project's `HudConfig`, edited by the compact
// HUD designer: life, items, keys and kills.

/// A counter of the project's HUD configuration.
#[derive(Clone, Copy, Debug, PartialEq, Eq, Structural)]
pub enum HudCounter {
    Life,
    Items,
    Keys,
    Kills,
}

/// Position (x, y) of a counter.
pub open spec fn counter_coords(cfg: HudConfig, c: HudCounter) -> (u32, u32) {
    match c {
        HudCounter::Life => (cfg.hud_life_x, cfg.hud_life_y),
        HudCounter::Items => (cfg.hud_items_x, cfg.hud_items_y),
        HudCounter::Keys => (cfg.hud_keys_x, cfg.hud_keys_y),
        HudCounter::Kills => (cfg.hud_killed_x, cfg.hud_killed_y),
    }
}

/// The configuration with counter `c` moved to `(x, y)`; the items icon
/// follows the items counter.
pub open spec fn with_counter_coords(cfg: HudConfig, c: HudCounter, x: u32, y: u32) -> HudConfig {
    match c {
        HudCounter::Life => HudConfig { hud_life_x: x, hud_life_y: y, ..cfg },
        HudCounter::Items => HudConfig { hud_items_x: x, hud_items_y: y, ..cfg },
        HudCounter::Keys => HudConfig { hud_keys_x: x, hud_keys_y: y, ..cfg },
        HudCounter::Kills => HudConfig { hud_killed_x: x, hud_killed_y: y, ..cfg },
    }
}

/// Row where a counter appears when switched on (right of the viewport, at
/// column 30): life 2, items 5, keys 8, kills 11.
pub open spec fn counter_row(c: HudCounter) -> u32 {
    match c {
        HudCounter::Life => 2,
        HudCounter::Items => 5,
        HudCounter::Keys => 8,
        HudCounter::Kills => 11,
    }
}

fn set_counter_coords(cfg: &mut HudConfig, c: HudCounter, x: u32, y: u32)
    ensures
        *final(cfg) == with_counter_coords(*old(cfg), c, x, y),
{
    match c {
        HudCounter::Life => {
            cfg.hud_life_x = x;
            cfg.hud_life_y = y;
        },
        HudCounter::Items => {
            cfg.hud_items_x = x;
            cfg.hud_items_y = y;
        },
        HudCounter::Keys => {
            cfg.hud_keys_x = x;
            cfg.hud_keys_y = y;
        },
        HudCounter::Kills => {
            cfg.hud_killed_x = x;
            cfg.hud_killed_y = y;
        },
    }
}

/// Whether a counter is on: its x is not 99.
pub open spec fn counter_on(cfg: HudConfig, c: HudCounter) -> bool {
    counter_coords(cfg, c).0 != 99
}

/// Whether a counter is on.
pub fn is_counter_on(cfg: &HudConfig, c: HudCounter) -> (r: bool)
    ensures
        r == counter_on(*cfg, c),
{
    let x = match c {
        HudCounter::Life => cfg.hud_life_x,
        HudCounter::Items => cfg.hud_items_x,
        HudCounter::Keys => cfg.hud_keys_x,
        HudCounter::Kills => cfg.hud_killed_x,
    };
    x != HUD_OFF
}

/// Switches a counter on (at column 30 of its row) or off (99, 99).
pub fn set_counter_active(cfg: &mut HudConfig, c: HudCounter, active: bool)
    ensures
        *final(cfg) == if active {
            with_counter_coords(*old(cfg), c, 30, counter_row(c))
        } else {
            with_counter_coords(*old(cfg), c, 99, 99)
        },
{
    if active {
        let row: u32 = match c {
            HudCounter::Life => 2,
            HudCounter::Items => 5,
            HudCounter::Keys => 8,
            HudCounter::Kills => 11,
        };
        set_counter_coords(cfg, c, 30, row);
    } else {
        set_counter_coords(cfg, c, HUD_OFF, HUD_OFF);
    }
}

/// A counter switched on is on, at column 30 of its row; one switched off
/// is off; the other counters keep their places.
pub proof fn lemma_counter_switch_reads_back(cfg: HudConfig, c: HudCounter, other: HudCounter)
    requires
        other != c,
    ensures
        counter_on(with_counter_coords(cfg, c, 30, counter_row(c)), c),
        counter_coords(with_counter_coords(cfg, c, 30, counter_row(c)), c) == (30u32, counter_row(c)),
        !counter_on(with_counter_coords(cfg, c, 99, 99), c),
        counter_coords(with_counter_coords(cfg, c, 30, counter_row(c)), other) == counter_coords(cfg, other),
        counter_coords(with_counter_coords(cfg, c, 99, 99), other) == counter_coords(cfg, other),
{
}

/// Drops counter `c` at cell `(cell_x, cell_y)`, kept on the screen (x at
/// most 30, y at most 23). Moving the items counter moves its icon along.
pub fn drag_counter(cfg: &mut HudConfig, c: HudCounter, cell_x: u32, cell_y: u32)
    ensures
        ({
            let x = if cell_x > 30 { 30u32 } else { cell_x };
            let y = if cell_y > 23 { 23u32 } else { cell_y };
            let moved = with_counter_coords(*old(cfg), c, x, y);
            *final(cfg) == if c == HudCounter::Items {
                HudConfig { hud_items_icon_x: x, hud_items_icon_y: y, ..moved }
            } else {
                moved
            }
        }),
{
    let x = if cell_x > 30 { 30 } else { cell_x };
    let y = if cell_y > 23 { 23 } else { cell_y };
    set_counter_coords(cfg, c, x, y);
    if c == HudCounter::Items {
        cfg.hud_items_icon_x = x;
        cfg.hud_items_icon_y = y;
    }
}

/// Drops the viewport at cell `(cell_x, cell_y)`, kept on the screen
/// (x at most 2, y at most 4).
pub fn drag_hud_viewport(cfg: &mut HudConfig, cell_x: u32, cell_y: u32)
    ensures
        *final(cfg) == (HudConfig {
            viewport_x: if cell_x > 2 { 2u32 } else { cell_x },
            viewport_y: if cell_y > 4 { 4u32 } else { cell_y },
            ..*old(cfg)
        }),
{
    cfg.viewport_x = if cell_x > 2 { 2 } else { cell_x };
    cfg.viewport_y = if cell_y > 4 { 4 } else { cell_y };
}

/// Whether some counter that is on reaches into the 30x20 viewport.
pub open spec fn counters_collide(cfg: HudConfig) -> bool {
    exists|c: HudCounter|
        counter_on(cfg, c) && #[trigger] overlaps_viewport(
            counter_coords(cfg, c).0,
            counter_coords(cfg, c).1,
            cfg.viewport_x,
            cfg.viewport_y,
        )
}

/// Checks the HUD counters for one inside the viewport.
pub fn has_counter_collision(cfg: &HudConfig) -> (r: bool)
    ensures
        r == counters_collide(*cfg),
{
    let (vx, vy) = (cfg.viewport_x, cfg.viewport_y);
    let life = cfg.hud_life_x != HUD_OFF && overlaps(cfg.hud_life_x, cfg.hud_life_y, vx, vy);
    let items = cfg.hud_items_x != HUD_OFF && overlaps(cfg.hud_items_x, cfg.hud_items_y, vx, vy);
    let keys = cfg.hud_keys_x != HUD_OFF && overlaps(cfg.hud_keys_x, cfg.hud_keys_y, vx, vy);
    let kills = cfg.hud_killed_x != HUD_OFF && overlaps(cfg.hud_killed_x, cfg.hud_killed_y, vx, vy);
    proof {
        if !(life || items || keys || kills) {
            assert forall|c: HudCounter| !(counter_on(*cfg, c) && #[trigger] overlaps_viewport(
                counter_coords(*cfg, c).0,
                counter_coords(*cfg, c).1,
                cfg.viewport_x,
                cfg.viewport_y,
            )) by {
                match c {
                    HudCounter::Life => {},
                    HudCounter::Items => {},
                    HudCounter::Keys => {},
                    HudCounter::Kills => {},
                }
            }
        } else if life {
            assert(overlaps_viewport(counter_coords(*cfg, HudCounter::Life).0, counter_coords(*cfg, HudCounter::Life).1, vx, vy));
        } else if items {
            assert(overlaps_viewport(counter_coords(*cfg, HudCounter::Items).0, counter_coords(*cfg, HudCounter::Items).1, vx, vy));
        } else if keys {
            assert(overlaps_viewport(counter_coords(*cfg, HudCounter::Keys).0, counter_coords(*cfg, HudCounter::Keys).1, vx, vy));
        } else {
            assert(overlaps_viewport(counter_coords(*cfg, HudCounter::Kills).0, counter_coords(*cfg, HudCounter::Kills).1, vx, vy));
        }
    }
    life || items || keys || kills
}

/// What a drag in the compact designer picks up at a cell.
#[derive(Clone, Copy, Debug, PartialEq, Eq, Structural)]
pub enum CounterDrag {
    Counter(HudCounter),
    Viewport,
}

/// What a drag starting at cell `(cx, cy)` picks up: the first counter that
/// is on and lies under the cell (life, items, keys, kills), else the
/// viewport if the cell is in it.
pub open spec fn counter_drag_at(cfg: HudConfig, cx: u32, cy: u32) -> Option<CounterDrag> {
    let under = |c: HudCounter|
        counter_on(cfg, c) && on_indicator(cx, cy, counter_coords(cfg, c).0, counter_coords(cfg, c).1);
    if under(HudCounter::Life) {
        Some(CounterDrag::Counter(HudCounter::Life))
    } else if under(HudCounter::Items) {
        Some(CounterDrag::Counter(HudCounter::Items))
    } else if under(HudCounter::Keys) {
        Some(CounterDrag::Counter(HudCounter::Keys))
    } else if under(HudCounter::Kills) {
        Some(CounterDrag::Counter(HudCounter::Kills))
    } else if in_viewport(cx, cy, cfg.viewport_x, cfg.viewport_y) {
        Some(CounterDrag::Viewport)
    } else {
        None
    }
}

fn under_cell(x: u32, y: u32, cx: u32, cy: u32) -> (r: bool)
    ensures
        r == (x != 99 && on_indicator(cx, cy, x, y)),
{
    x != HUD_OFF && x as u64 <= cx as u64 && (cx as u64) < x as u64 + 2 && cy == y
}

/// Picks what a drag starting at cell `(cx, cy)` moves.
pub fn pick_counter_drag(cfg: &HudConfig, cx: u32, cy: u32) -> (r: Option<CounterDrag>)
    ensures
        r == counter_drag_at(*cfg, cx, cy),
{
    if under_cell(cfg.hud_life_x, cfg.hud_life_y, cx, cy) {
        Some(CounterDrag::Counter(HudCounter::Life))
    } else if under_cell(cfg.hud_items_x, cfg.hud_items_y, cx, cy) {
        Some(CounterDrag::Counter(HudCounter::Items))
    } else if under_cell(cfg.hud_keys_x, cfg.hud_keys_y, cx, cy) {
        Some(CounterDrag::Counter(HudCounter::Keys))
    } else if under_cell(cfg.hud_killed_x, cfg.hud_killed_y, cx, cy) {
        Some(CounterDrag::Counter(HudCounter::Kills))
    } else {
        let (vx, vy) = (cfg.viewport_x as u64, cfg.viewport_y as u64);
        if vx <= cx as u64 && (cx as u64) < vx + 30 && vy <= cy as u64 && (cy as u64) < vy + 20 {
            Some(CounterDrag::Viewport)
        } else {
            None
        }
    }
}

/// Where each element's position is kept in the configuration.
pub proof fn lemma_coords_fields(cfg: HudRenderingConfig)
    ensures
        coords_of(cfg, HudElement::Life) == (cfg.life_x, cfg.life_y),
        coords_of(cfg, HudElement::Objects) == (cfg.objects_x, cfg.objects_y),
        coords_of(cfg, HudElement::ObjectsIcon) == (cfg.objects_icon_x, cfg.objects_icon_y),
        coords_of(cfg, HudElement::Keys) == (cfg.keys_x, cfg.keys_y),
        coords_of(cfg, HudElement::Killed) == (cfg.killed_x, cfg.killed_y),
        coords_of(cfg, HudElement::Ammo) == (cfg.ammo_x, cfg.ammo_y),
        coords_of(cfg, HudElement::Timer) == (cfg.timer_x, cfg.timer_y),
{
}

/// The collision check reports exactly the layouts in which some element,
/// whichever of the seven it is, sits with neither coordinate 99 and its
/// 2x1 indicator sharing a cell with the 30x20 viewport.
pub proof fn lemma_collision_iff_overlap(cfg: HudRenderingConfig, e: HudElement)
    ensures
        ({
            let (x, y) = coords_of(cfg, e);
            let (vx, vy) = (cfg.viewport_x as int, cfg.viewport_y as int);
            (x != 99 && y != 99 && x < vx + 30 && x + 2 > vx && y < vy + 20 && y + 1 > vy) ==> hud_collides(cfg)
        }),
        hud_collides(cfg) ==> exists|f: HudElement|
            {
                let (x, y) = #[trigger] coords_of(cfg, f);
                let (vx, vy) = (cfg.viewport_x as int, cfg.viewport_y as int);
                x != 99 && y != 99 && x < vx + 30 && x + 2 > vx && y < vy + 20 && y + 1 > vy
            },
{
    let (x, y) = coords_of(cfg, e);
    if x != 99 && y != 99 && overlaps_viewport(x, y, cfg.viewport_x, cfg.viewport_y) {
        assert(is_drawn(cfg, e));
    }
    if hud_collides(cfg) {
        let f = choose|f: HudElement|
            is_drawn(cfg, f) && #[trigger] overlaps_viewport(
                coords_of(cfg, f).0,
                coords_of(cfg, f).1,
                cfg.viewport_x,
                cfg.viewport_y,
            );
        assert(coords_of(cfg, f) == coords_of(cfg, f));
    }
}

/// The compact designer's collision check reports exactly the layouts in
/// which some counter that is on (x not 99) has its 2x1 indicator sharing a
/// cell with the 30x20 viewport.
pub proof fn lemma_counter_collision_iff_overlap(cfg: HudConfig, c: HudCounter)
    ensures
        ({
            let (x, y) = counter_coords(cfg, c);
            let (vx, vy) = (cfg.viewport_x as int, cfg.viewport_y as int);
            (x != 99 && x < vx + 30 && x + 2 > vx && y < vy + 20 && y + 1 > vy) ==> counters_collide(cfg)
        }),
        counters_collide(cfg) ==> exists|d: HudCounter|
            {
                let (x, y) = #[trigger] counter_coords(cfg, d);
                let (vx, vy) = (cfg.viewport_x as int, cfg.viewport_y as int);
                x != 99 && x < vx + 30 && x + 2 > vx && y < vy + 20 && y + 1 > vy
            },
        counter_coords(cfg, HudCounter::Life) == (cfg.hud_life_x, cfg.hud_life_y),
        counter_coords(cfg, HudCounter::Items) == (cfg.hud_items_x, cfg.hud_items_y),
        counter_coords(cfg, HudCounter::Keys) == (cfg.hud_keys_x, cfg.hud_keys_y),
        counter_coords(cfg, HudCounter::Kills) == (cfg.hud_killed_x, cfg.hud_killed_y),
{
    let (x, y) = counter_coords(cfg, c);
    if x != 99 && overlaps_viewport(x, y, cfg.viewport_x, cfg.viewport_y) {
        assert(counter_on(cfg, c));
    }
    if counters_collide(cfg) {
        let d = choose|d: HudCounter|
            counter_on(cfg, d) && #[trigger] overlaps_viewport(
                counter_coords(cfg, d).0,
                counter_coords(cfg, d).1,
                cfg.viewport_x,
                cfg.viewport_y,
            );
        assert(counter_coords(cfg, d) == counter_coords(cfg, d));
    }
}

} // verus!
