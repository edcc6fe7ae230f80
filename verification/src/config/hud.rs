//! Positions of the HUD counters in character cells (99 switches a counter off) and rendering switches.

use vstd::prelude::*;

verus! {

/// Positions of the HUD counters in character cells (99 switches a counter off) and rendering switches.
#[derive(Clone, Debug, PartialEq, Eq, Structural)]
pub struct HudConfig {
    pub viewport_x: u32,
    pub viewport_y: u32,
    pub hud_life_x: u32,
    pub hud_life_y: u32,
    pub hud_items_x: u32,
    pub hud_items_y: u32,
    pub hud_items_icon_x: u32,
    pub hud_items_icon_y: u32,
    pub hud_keys_x: u32,
    pub hud_keys_y: u32,
    pub hud_killed_x: u32,
    pub hud_killed_y: u32,
    pub hud_ammo_x: u32,
    pub hud_ammo_y: u32,
    pub hud_timer_x: u32,
    pub hud_timer_y: u32,
    pub line_of_text: u32,
    pub line_of_text_x: u32,
    pub line_of_text_attr: u32,
    pub line_of_text_no_autoerase: bool,
    pub use_auto_shadows: bool,
    pub use_auto_tile_shadows: bool,
    pub unpacked_map: bool,
    pub packed_map_alt_tile: u32,
    pub no_masks: bool,
    pub masked_bullets: bool,
    pub player_custom_animation: bool,
    pub enable_tilanims: u32,
    pub pause_abort: bool,
    pub get_x_more: bool,
    pub hud_ink: u32,
}

// Values taken by fields that a stored project lacks.

pub fn default_0() -> (r: u32)
    ensures
        r == 0,
{
    0
}

pub fn default_1() -> (r: u32)
    ensures
        r == 1,
{
    1
}

pub fn default_7() -> (r: u32)
    ensures
        r == 7,
{
    7
}

pub fn default_12() -> (r: u32)
    ensures
        r == 12,
{
    12
}

pub fn default_15() -> (r: u32)
    ensures
        r == 15,
{
    15
}

pub fn default_17() -> (r: u32)
    ensures
        r == 17,
{
    17
}

pub fn default_19() -> (r: u32)
    ensures
        r == 19,
{
    19
}

pub fn default_21() -> (r: u32)
    ensures
        r == 21,
{
    21
}

pub fn default_22() -> (r: u32)
    ensures
        r == 22,
{
    22
}

pub fn default_27() -> (r: u32)
    ensures
        r == 27,
{
    27
}

pub fn default_32() -> (r: u32)
    ensures
        r == 32,
{
    32
}

pub fn default_71() -> (r: u32)
    ensures
        r == 71,
{
    71
}

pub fn default_99() -> (r: u32)
    ensures
        r == 99,
{
    99
}

impl HudConfig {
    /// The settings of a new project.
    pub open spec fn is_default(&self) -> bool {
        &&& self.viewport_x == 1
        &&& self.viewport_y == 0
        &&& self.hud_life_x == 22
        &&& self.hud_life_y == 21
        &&& self.hud_items_x == 17
        &&& self.hud_items_y == 21
        &&& self.hud_items_icon_x == 15
        &&& self.hud_items_icon_y == 21
        &&& self.hud_keys_x == 27
        &&& self.hud_keys_y == 21
        &&& self.hud_killed_x == 12
        &&& self.hud_killed_y == 21
        &&& self.hud_ammo_x == 99
        &&& self.hud_ammo_y == 99
        &&& self.hud_timer_x == 99
        &&& self.hud_timer_y == 99
        &&& self.line_of_text == 1
        &&& self.line_of_text_x == 1
        &&& self.line_of_text_attr == 71
        &&& self.line_of_text_no_autoerase == false
        &&& self.use_auto_shadows == false
        &&& self.use_auto_tile_shadows == false
        &&& self.unpacked_map == false
        &&& self.packed_map_alt_tile == 19
        &&& self.no_masks == false
        &&& self.masked_bullets == false
        &&& self.player_custom_animation == false
        &&& self.enable_tilanims == 32
        &&& self.pause_abort == false
        &&& self.get_x_more == false
        &&& self.hud_ink == 7
    }
}

impl Default for HudConfig {
    fn default() -> (r: HudConfig)
        ensures
            r.is_default(),
    {
        HudConfig {
            viewport_x: 1,
            viewport_y: 0,
            hud_life_x: 22,
            hud_life_y: 21,
            hud_items_x: 17,
            hud_items_y: 21,
            hud_items_icon_x: 15,
            hud_items_icon_y: 21,
            hud_keys_x: 27,
            hud_keys_y: 21,
            hud_killed_x: 12,
            hud_killed_y: 21,
            hud_ammo_x: 99,
            hud_ammo_y: 99,
            hud_timer_x: 99,
            hud_timer_y: 99,
            line_of_text: 1,
            line_of_text_x: 1,
            line_of_text_attr: 71,
            line_of_text_no_autoerase: false,
            use_auto_shadows: false,
            use_auto_tile_shadows: false,
            unpacked_map: false,
            packed_map_alt_tile: 19,
            no_masks: false,
            masked_bullets: false,
            player_custom_animation: false,
            enable_tilanims: 32,
            pause_abort: false,
            get_x_more: false,
            hud_ink: 7,
        }
    }
}

} // verus!
