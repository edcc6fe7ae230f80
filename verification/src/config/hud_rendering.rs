//! Game viewport and HUD element positions as the HUD editor edits them (character cells, 99 = element off), plus rendering switches.

use vstd::prelude::*;

verus! {

/// Game viewport and HUD element positions as the HUD editor edits them (character cells, 99 = element off), plus rendering switches.
#[derive(Clone, Debug, PartialEq, Eq, Structural)]
pub struct HudRenderingConfig {
    pub viewport_x: u32,
    pub viewport_y: u32,
    pub life_x: u32,
    pub life_y: u32,
    pub objects_x: u32,
    pub objects_y: u32,
    pub objects_icon_x: u32,
    pub objects_icon_y: u32,
    pub keys_x: u32,
    pub keys_y: u32,
    pub killed_x: u32,
    pub killed_y: u32,
    pub ammo_x: u32,
    pub ammo_y: u32,
    pub timer_x: u32,
    pub timer_y: u32,
    pub line_of_text: u32,
    pub line_of_text_x: u32,
    pub line_of_text_attr: u32,
    pub line_of_text_no_autoerase: bool,
    pub use_auto_shadows: bool,
    pub use_auto_tile_shadows: bool,
    pub unpacked_map: bool,
    pub packed_map_alt_tile: u32,
    pub no_masks: bool,
    pub masked_bullets: bool,
    pub player_custom_animation: bool,
    pub enable_tilanims: u32,
    pub pause_abort: bool,
    pub get_x_more: bool,
    pub hud_ink: u32,
}

impl HudRenderingConfig {
    /// The settings of a new project.
    pub open spec fn is_default(&self) -> bool {
        &&& self.viewport_x == 1
        &&& self.viewport_y == 3
        &&& self.life_x == 5
        &&& self.life_y == 1
        &&& self.objects_x == 16
        &&& self.objects_y == 1
        &&& self.objects_icon_x == 99
        &&& self.objects_icon_y == 99
        &&& self.keys_x == 22
        &&& self.keys_y == 1
        &&& self.killed_x == 99
        &&& self.killed_y == 99
        &&& self.ammo_x == 99
        &&& self.ammo_y == 99
        &&& self.timer_x == 29
        &&& self.timer_y == 1
        &&& self.line_of_text == 99
        &&& self.line_of_text_x == 1
        &&& self.line_of_text_attr == 71
        &&& self.line_of_text_no_autoerase == false
        &&& self.use_auto_shadows == false
        &&& self.use_auto_tile_shadows == false
        &&& self.unpacked_map == true
        &&& self.packed_map_alt_tile == 19
        &&& self.no_masks == false
        &&& self.masked_bullets == false
        &&& self.player_custom_animation == true
        &&& self.enable_tilanims == 0
        &&& self.pause_abort == false
        &&& self.get_x_more == false
        &&& self.hud_ink == 4
    }
}

impl Default for HudRenderingConfig {
    fn default() -> (r: HudRenderingConfig)
        ensures
            r.is_default(),
    {
        HudRenderingConfig {
            viewport_x: 1,
            viewport_y: 3,
            life_x: 5,
            life_y: 1,
            objects_x: 16,
            objects_y: 1,
            objects_icon_x: 99,
            objects_icon_y: 99,
            keys_x: 22,
            keys_y: 1,
            killed_x: 99,
            killed_y: 99,
            ammo_x: 99,
            ammo_y: 99,
            timer_x: 29,
            timer_y: 1,
            line_of_text: 99,
            line_of_text_x: 1,
            line_of_text_attr: 71,
            line_of_text_no_autoerase: false,
            use_auto_shadows: false,
            use_auto_tile_shadows: false,
            unpacked_map: true,
            packed_map_alt_tile: 19,
            no_masks: false,
            masked_bullets: false,
            player_custom_animation: true,
            enable_tilanims: 0,
            pause_abort: false,
            get_x_more: false,
            hud_ink: 4,
        }
    }
}

} // verus!
