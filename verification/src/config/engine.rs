//! Engine feature switches: collision boxes, objects and keys, enemies (pursuers, Fanties, orthoshooters), push boxes, shooting, scripting, timer, checkpoints and player movement.

use vstd::prelude::*;

verus! {

/// Engine feature switches: collision boxes, objects and keys, enemies (pursuers, Fanties, orthoshooters), push boxes, shooting, scripting, timer, checkpoints and player movement.
#[derive(Clone, Debug)]
pub struct EngineConfig {
    pub bounding_box_8_bottom: bool,
    pub bounding_box_8_centered: bool,
    pub small_collision: bool,
    pub player_check_map_boundaries: bool,
    pub direct_to_play: bool,
    pub deactivate_keys: bool,
    pub deactivate_objects: bool,
    pub deactivate_refills: bool,
    pub only_one_object: bool,
    pub object_count_flag: u32,
    pub reverse_objects_count: bool,
    pub deactivate_evil_tile: bool,
    pub player_bounces: bool,
    pub full_bounce: bool,
    pub slow_drain: bool,
    pub player_flickers: bool,
    pub map_bottom_kills: bool,
    pub walls_stop_enemies: bool,
    pub everything_is_a_wall: bool,
    pub body_count_on_flag: u32,
    pub disable_platforms: bool,
    pub enable_pursuers: bool,
    pub death_count_and: u32,
    pub death_count_add: u32,
    pub pursuers_max_v: u32,
    pub pursuers_base_cell: u32,
    pub enable_fanties: bool,
    pub fanties_base_cell: u32,
    pub fanties_sight_distance: u32,
    pub fanties_max_v: u32,
    pub fanties_a: u32,
    pub fanties_life_gauge: u32,
    pub fanties_type_homing: bool,
    pub enable_orthoshooters: bool,
    pub orthoshooters_freq: u32,
    pub orthoshooters_base_cell: u32,
    pub cocos_v: u32,
    pub player_push_boxes: bool,
    pub fire_to_push: bool,
    pub enable_pushed_scripting: bool,
    pub moved_tile_flag: u32,
    pub moved_x_flag: u32,
    pub moved_y_flag: u32,
    pub pushing_action: bool,
    pub player_can_fire: bool,
    pub player_can_fire_flag: u32,
    pub player_bullet_speed: u32,
    pub max_bullets: u32,
    pub player_bullet_y_offset: u32,
    pub player_bullet_x_offset: u32,
    pub enemies_life_gauge: u32,
    pub limited_bullets: bool,
    pub lb_frames: u32,
    pub lb_frames_flag: u32,
    pub respawn_on_enter: bool,
    pub fire_min_killable: u32,
    pub can_fire_up: bool,
    pub max_ammo: u32,
    pub ammo_refill: u32,
    pub initial_ammo: u32,
    pub breakable_walls: bool,
    pub breakable_walls_life: u32,
    pub activate_scripting: bool,
    pub max_flags: u32,
    pub scripting_key: String,
    pub enable_extern_code: bool,
    pub enable_fire_zone: bool,
    pub script_page: u32,
    pub timer_enable: bool,
    pub timer_initial: u32,
    pub timer_refill: u32,
    pub timer_lapse: u32,
    pub timer_start: bool,
    pub timer_script_0: bool,
    pub timer_gameover_0: bool,
    pub timer_kill_0: bool,
    pub timer_warp_to: u32,
    pub timer_warp_to_x: u32,
    pub timer_warp_to_y: u32,
    pub timer_auto_reset: bool,
    pub show_timer_over: bool,
    pub enable_checkpoints: bool,
    pub cp_reset_when_dying: bool,
    pub cp_reset_also_flags: bool,
    pub player_has_jump: bool,
    pub player_has_jetpac: bool,
    pub player_bootee: bool,
    pub player_vkeys: bool,
    pub player_disable_gravity: bool,
    pub player_steps_on_enemies: bool,
    pub player_min_killable: u32,
    pub player_step_sound: bool,
    pub player_disable_default_heng: bool,
    pub use_two_buttons: bool,
}

// Values taken by fields that a stored project lacks.

pub fn default_true() -> (r: bool)
    ensures
        r == true,
{
    true
}

pub fn default_1() -> (r: u32)
    ensures
        r == 1,
{
    1
}

pub fn default_2() -> (r: u32)
    ensures
        r == 2,
{
    2
}

pub fn default_3() -> (r: u32)
    ensures
        r == 3,
{
    3
}

pub fn default_4() -> (r: u32)
    ensures
        r == 4,
{
    4
}

pub fn default_6() -> (r: u32)
    ensures
        r == 6,
{
    6
}

pub fn default_7() -> (r: u32)
    ensures
        r == 7,
{
    7
}

pub fn default_8() -> (r: u32)
    ensures
        r == 8,
{
    8
}

pub fn default_10() -> (r: u32)
    ensures
        r == 10,
{
    10
}

pub fn default_11() -> (r: u32)
    ensures
        r == 11,
{
    11
}

pub fn default_15() -> (r: u32)
    ensures
        r == 15,
{
    15
}

pub fn default_30() -> (r: u32)
    ensures
        r == 30,
{
    30
}

pub fn default_32() -> (r: u32)
    ensures
        r == 32,
{
    32
}

pub fn default_50() -> (r: u32)
    ensures
        r == 50,
{
    50
}

pub fn default_99() -> (r: u32)
    ensures
        r == 99,
{
    99
}

pub fn default_104() -> (r: u32)
    ensures
        r == 104,
{
    104
}

pub fn default_256() -> (r: u32)
    ensures
        r == 256,
{
    256
}

pub fn default_16() -> (r: u32)
    ensures
        r == 16,
{
    16
}

pub fn default_script_key() -> (r: String)
    ensures
        r@ == "DOWN"@,
{
    String::from_str("DOWN")
}

impl EngineConfig {
    /// The settings of a new project.
    pub open spec fn is_default(&self) -> bool {
        &&& self.bounding_box_8_bottom == true
        &&& self.bounding_box_8_centered == false
        &&& self.small_collision == true
        &&& self.player_check_map_boundaries == false
        &&& self.direct_to_play == true
        &&& self.deactivate_keys == false
        &&& self.deactivate_objects == false
        &&& self.deactivate_refills == false
        &&& self.only_one_object == true
        &&& self.object_count_flag == 1
        &&& self.reverse_objects_count == false
        &&& self.deactivate_evil_tile == false
        &&& self.player_bounces == true
        &&& self.full_bounce == false
        &&& self.slow_drain == false
        &&& self.player_flickers == true
        &&& self.map_bottom_kills == false
        &&& self.walls_stop_enemies == false
        &&& self.everything_is_a_wall == false
        &&& self.body_count_on_flag == 2
        &&& self.disable_platforms == false
        &&& self.enable_pursuers == false
        &&& self.death_count_and == 7
        &&& self.death_count_add == 11
        &&& self.pursuers_max_v == 2
        &&& self.pursuers_base_cell == 3
        &&& self.enable_fanties == false
        &&& self.fanties_base_cell == 2
        &&& self.fanties_sight_distance == 104
        &&& self.fanties_max_v == 256
        &&& self.fanties_a == 16
        &&& self.fanties_life_gauge == 10
        &&& self.fanties_type_homing == false
        &&& self.enable_orthoshooters == false
        &&& self.orthoshooters_freq == 15
        &&& self.orthoshooters_base_cell == 0
        &&& self.cocos_v == 8
        &&& self.player_push_boxes == false
        &&& self.fire_to_push == false
        &&& self.enable_pushed_scripting == false
        &&& self.moved_tile_flag == 1
        &&& self.moved_x_flag == 2
        &&& self.moved_y_flag == 3
        &&& self.pushing_action == false
        &&& self.player_can_fire == false
        &&& self.player_can_fire_flag == 1
        &&& self.player_bullet_speed == 8
        &&& self.max_bullets == 3
        &&& self.player_bullet_y_offset == 6
        &&& self.player_bullet_x_offset == 0
        &&& self.enemies_life_gauge == 4
        &&& self.limited_bullets == false
        &&& self.lb_frames == 4
        &&& self.lb_frames_flag == 2
        &&& self.respawn_on_enter == false
        &&& self.fire_min_killable == 3
        &&& self.can_fire_up == false
        &&& self.max_ammo == 99
        &&& self.ammo_refill == 50
        &&& self.initial_ammo == 0
        &&& self.breakable_walls == false
        &&& self.breakable_walls_life == 1
        &&& self.activate_scripting == true
        &&& self.max_flags == 32
        &&& self.scripting_key@ == "DOWN"@
        &&& self.enable_extern_code == false
        &&& self.enable_fire_zone == false
        &&& self.script_page == 3
        &&& self.timer_enable == false
        &&& self.timer_initial == 99
        &&& self.timer_refill == 30
        &&& self.timer_lapse == 32
        &&& self.timer_start == false
        &&& self.timer_script_0 == false
        &&& self.timer_gameover_0 == false
        &&& self.timer_kill_0 == false
        &&& self.timer_warp_to == 0
        &&& self.timer_warp_to_x == 1
        &&& self.timer_warp_to_y == 1
        &&& self.timer_auto_reset == false
        &&& self.show_timer_over == false
        &&& self.enable_checkpoints == false
        &&& self.cp_reset_when_dying == false
        &&& self.cp_reset_also_flags == false
        &&& self.player_has_jump == true
        &&& self.player_has_jetpac == false
        &&& self.player_bootee == false
        &&& self.player_vkeys == false
        &&& self.player_disable_gravity == false
        &&& self.player_steps_on_enemies == true
        &&& self.player_min_killable == 3
        &&& self.player_step_sound == false
        &&& self.player_disable_default_heng == false
        &&& self.use_two_buttons == false
    }
}

impl Default for EngineConfig {
    fn default() -> (r: EngineConfig)
        ensures
            r.is_default(),
    {
        EngineConfig {
            bounding_box_8_bottom: true,
            bounding_box_8_centered: false,
            small_collision: true,
            player_check_map_boundaries: false,
            direct_to_play: true,
            deactivate_keys: false,
            deactivate_objects: false,
            deactivate_refills: false,
            only_one_object: true,
            object_count_flag: 1,
            reverse_objects_count: false,
            deactivate_evil_tile: false,
            player_bounces: true,
            full_bounce: false,
            slow_drain: false,
            player_flickers: true,
            map_bottom_kills: false,
            walls_stop_enemies: false,
            everything_is_a_wall: false,
            body_count_on_flag: 2,
            disable_platforms: false,
            enable_pursuers: false,
            death_count_and: 7,
            death_count_add: 11,
            pursuers_max_v: 2,
            pursuers_base_cell: 3,
            enable_fanties: false,
            fanties_base_cell: 2,
            fanties_sight_distance: 104,
            fanties_max_v: 256,
            fanties_a: 16,
            fanties_life_gauge: 10,
            fanties_type_homing: false,
            enable_orthoshooters: false,
            orthoshooters_freq: 15,
            orthoshooters_base_cell: 0,
            cocos_v: 8,
            player_push_boxes: false,
            fire_to_push: false,
            enable_pushed_scripting: false,
            moved_tile_flag: 1,
            moved_x_flag: 2,
            moved_y_flag: 3,
            pushing_action: false,
            player_can_fire: false,
            player_can_fire_flag: 1,
            player_bullet_speed: 8,
            max_bullets: 3,
            player_bullet_y_offset: 6,
            player_bullet_x_offset: 0,
            enemies_life_gauge: 4,
            limited_bullets: false,
            lb_frames: 4,
            lb_frames_flag: 2,
            respawn_on_enter: false,
            fire_min_killable: 3,
            can_fire_up: false,
            max_ammo: 99,
            ammo_refill: 50,
            initial_ammo: 0,
            breakable_walls: false,
            breakable_walls_life: 1,
            activate_scripting: true,
            max_flags: 32,
            scripting_key: String::from_str("DOWN"),
            enable_extern_code: false,
            enable_fire_zone: false,
            script_page: 3,
            timer_enable: false,
            timer_initial: 99,
            timer_refill: 30,
            timer_lapse: 32,
            timer_start: false,
            timer_script_0: false,
            timer_gameover_0: false,
            timer_kill_0: false,
            timer_warp_to: 0,
            timer_warp_to_x: 1,
            timer_warp_to_y: 1,
            timer_auto_reset: false,
            show_timer_over: false,
            enable_checkpoints: false,
            cp_reset_when_dying: false,
            cp_reset_also_flags: false,
            player_has_jump: true,
            player_has_jetpac: false,
            player_bootee: false,
            player_vkeys: false,
            player_disable_gravity: false,
            player_steps_on_enemies: true,
            player_min_killable: 3,
            player_step_sound: false,
            player_disable_default_heng: false,
            use_two_buttons: false,
        }
    }
}

} // verus!
