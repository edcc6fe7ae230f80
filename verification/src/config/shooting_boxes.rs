//! Cocos, push boxes, shooting, breakable walls, scripting, timer and checkpoints.

use vstd::prelude::*;

verus! {

/// Cocos, push boxes, shooting, breakable walls, scripting, timer and checkpoints.
#[derive(Clone, Debug, PartialEq, Eq, Structural)]
pub struct ShootingBoxesConfig {
    pub cocos_v: u32,
    pub player_push_boxes: bool,
    pub fire_to_push: bool,
    pub enable_pushed_scripting: bool,
    pub moved_tile_flag: u32,
    pub moved_x_flag: u32,
    pub moved_y_flag: u32,
    pub pushing_action: bool,
    pub player_can_fire: bool,
    pub player_can_fire_flag: u32,
    pub player_bullet_speed: u32,
    pub max_bullets: u32,
    pub player_bullet_y_offset: u32,
    pub player_bullet_x_offset: u32,
    pub enemies_life_gauge: u32,
    pub limited_bullets: bool,
    pub lb_frames: u32,
    pub lb_frames_flag: u32,
    pub respawn_on_enter: bool,
    pub fire_min_killable: u32,
    pub can_fire_up: bool,
    pub max_ammo: u32,
    pub ammo_refill: u32,
    pub initial_ammo: u32,
    pub breakable_walls: bool,
    pub breakable_walls_life: u32,
    pub breakable_walls_breaking: u32,
    pub breakable_walls_broken: u32,
    pub activate_scripting: bool,
    pub max_flags: u32,
    pub scripting_key: u32,
    pub enable_extern_code: bool,
    pub enable_fire_zone: bool,
    pub script_page: u32,
    pub timer_enable: bool,
    pub timer_initial: u32,
    pub timer_refill: u32,
    pub timer_lapse: u32,
    pub timer_start: bool,
    pub timer_script_0: bool,
    pub timer_behavior: u32,
    pub timer_warp: bool,
    pub timer_warp_to_screen: u32,
    pub timer_warp_to_x: u32,
    pub timer_warp_to_y: u32,
    pub timer_auto_reset: bool,
    pub show_timer_over: bool,
    pub enable_checkpoints: bool,
    pub cp_reset_when_dying: bool,
    pub cp_reset_also_flags: bool,
}

impl ShootingBoxesConfig {
    /// The settings of a new project.
    pub open spec fn is_default(&self) -> bool {
        &&& self.cocos_v == 0
        &&& self.player_push_boxes == false
        &&& self.fire_to_push == false
        &&& self.enable_pushed_scripting == false
        &&& self.moved_tile_flag == 1
        &&& self.moved_x_flag == 2
        &&& self.moved_y_flag == 3
        &&& self.pushing_action == false
        &&& self.player_can_fire == false
        &&& self.player_can_fire_flag == 0
        &&& self.player_bullet_speed == 8
        &&& self.max_bullets == 3
        &&& self.player_bullet_y_offset == 6
        &&& self.player_bullet_x_offset == 0
        &&& self.enemies_life_gauge == 4
        &&& self.limited_bullets == false
        &&& self.lb_frames == 4
        &&& self.lb_frames_flag == 2
        &&& self.respawn_on_enter == false
        &&& self.fire_min_killable == 3
        &&& self.can_fire_up == false
        &&& self.max_ammo == 0
        &&& self.ammo_refill == 50
        &&& self.initial_ammo == 0
        &&& self.breakable_walls == true
        &&& self.breakable_walls_life == 1
        &&& self.breakable_walls_breaking == 23
        &&& self.breakable_walls_broken == 0
        &&& self.activate_scripting == false
        &&& self.max_flags == 32
        &&& self.scripting_key == 0
        &&& self.enable_extern_code == false
        &&& self.enable_fire_zone == false
        &&& self.script_page == 3
        &&& self.timer_enable == true
        &&& self.timer_initial == 50
        &&& self.timer_refill == 10
        &&& self.timer_lapse == 32
        &&& self.timer_start == false
        &&& self.timer_script_0 == false
        &&& self.timer_behavior == 0
        &&& self.timer_warp == false
        &&& self.timer_warp_to_screen == 0
        &&& self.timer_warp_to_x == 1
        &&& self.timer_warp_to_y == 1
        &&& self.timer_auto_reset == false
        &&& self.show_timer_over == false
        &&& self.enable_checkpoints == false
        &&& self.cp_reset_when_dying == false
        &&& self.cp_reset_also_flags == false
    }
}

impl Default for ShootingBoxesConfig {
    fn default() -> (r: ShootingBoxesConfig)
        ensures
            r.is_default(),
    {
        ShootingBoxesConfig {
            cocos_v: 0,
            player_push_boxes: false,
            fire_to_push: false,
            enable_pushed_scripting: false,
            moved_tile_flag: 1,
            moved_x_flag: 2,
            moved_y_flag: 3,
            pushing_action: false,
            player_can_fire: false,
            player_can_fire_flag: 0,
            player_bullet_speed: 8,
            max_bullets: 3,
            player_bullet_y_offset: 6,
            player_bullet_x_offset: 0,
            enemies_life_gauge: 4,
            limited_bullets: false,
            lb_frames: 4,
            lb_frames_flag: 2,
            respawn_on_enter: false,
            fire_min_killable: 3,
            can_fire_up: false,
            max_ammo: 0,
            ammo_refill: 50,
            initial_ammo: 0,
            breakable_walls: true,
            breakable_walls_life: 1,
            breakable_walls_breaking: 23,
            breakable_walls_broken: 0,
            activate_scripting: false,
            max_flags: 32,
            scripting_key: 0,
            enable_extern_code: false,
            enable_fire_zone: false,
            script_page: 3,
            timer_enable: true,
            timer_initial: 50,
            timer_refill: 10,
            timer_lapse: 32,
            timer_start: false,
            timer_script_0: false,
            timer_behavior: 0,
            timer_warp: false,
            timer_warp_to_screen: 0,
            timer_warp_to_x: 1,
            timer_warp_to_y: 1,
            timer_auto_reset: false,
            show_timer_over: false,
            enable_checkpoints: false,
            cp_reset_when_dying: false,
            cp_reset_also_flags: false,
        }
    }
}

} // verus!
