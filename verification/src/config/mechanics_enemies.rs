//! Environment mechanics and the special enemy kinds (pursuers, Fanties, orthoshooters).

use vstd::prelude::*;

verus! {

/// Environment mechanics and the special enemy kinds (pursuers, Fanties, orthoshooters).
#[derive(Clone, Debug, PartialEq, Eq, Structural)]
pub struct MechanicsEnemiesConfig {
    pub player_check_map_boundaries: bool,
    pub direct_to_play: bool,
    pub deactivate_keys: bool,
    pub deactivate_objects: bool,
    pub deactivate_refills: bool,
    pub only_one_object: bool,
    pub object_count: u32,
    pub reverse_objects_count: bool,
    pub deactivate_evil_tile: bool,
    pub custom_evil_tile_check: bool,
    pub map_bottom_kills: bool,
    pub walls_stop_enemies: bool,
    pub everything_is_a_wall: bool,
    pub body_count_on: u32,
    pub disable_platforms: bool,
    pub custom_lock_clear: bool,
    pub enable_pursuers: bool,
    pub death_count_and: u32,
    pub death_count_add: u32,
    pub pursuers_max_v: u32,
    pub pursuers_base_cell: u32,
    pub pursuers_dont_spawn_in_obstacle: bool,
    pub enable_fanties: bool,
    pub fanties_base_cell: u32,
    pub fanties_sight_distance: u32,
    pub fanties_max_v: u32,
    pub fanties_a: u32,
    pub fanties_life_gauge: u32,
    pub fanties_type_homing: bool,
    pub enable_orthoshooters: bool,
    pub orthoshooters_base_cell: u32,
}

impl MechanicsEnemiesConfig {
    /// The settings of a new project.
    pub open spec fn is_default(&self) -> bool {
        &&& self.player_check_map_boundaries == false
        &&& self.direct_to_play == true
        &&& self.deactivate_keys == false
        &&& self.deactivate_objects == false
        &&& self.deactivate_refills == false
        &&& self.only_one_object == false
        &&& self.object_count == 1
        &&& self.reverse_objects_count == true
        &&& self.deactivate_evil_tile == false
        &&& self.custom_evil_tile_check == false
        &&& self.map_bottom_kills == false
        &&& self.walls_stop_enemies == true
        &&& self.everything_is_a_wall == false
        &&& self.body_count_on == 0
        &&& self.disable_platforms == false
        &&& self.custom_lock_clear == false
        &&& self.enable_pursuers == false
        &&& self.death_count_and == 7
        &&& self.death_count_add == 11
        &&& self.pursuers_max_v == 2
        &&& self.pursuers_base_cell == 3
        &&& self.pursuers_dont_spawn_in_obstacle == false
        &&& self.enable_fanties == false
        &&& self.fanties_base_cell == 2
        &&& self.fanties_sight_distance == 64
        &&& self.fanties_max_v == 256
        &&& self.fanties_a == 16
        &&& self.fanties_life_gauge == 10
        &&& self.fanties_type_homing == false
        &&& self.enable_orthoshooters == false
        &&& self.orthoshooters_base_cell == 0
    }
}

impl Default for MechanicsEnemiesConfig {
    fn default() -> (r: MechanicsEnemiesConfig)
        ensures
            r.is_default(),
    {
        MechanicsEnemiesConfig {
            player_check_map_boundaries: false,
            direct_to_play: true,
            deactivate_keys: false,
            deactivate_objects: false,
            deactivate_refills: false,
            only_one_object: false,
            object_count: 1,
            reverse_objects_count: true,
            deactivate_evil_tile: false,
            custom_evil_tile_check: false,
            map_bottom_kills: false,
            walls_stop_enemies: true,
            everything_is_a_wall: false,
            body_count_on: 0,
            disable_platforms: false,
            custom_lock_clear: false,
            enable_pursuers: false,
            death_count_and: 7,
            death_count_add: 11,
            pursuers_max_v: 2,
            pursuers_base_cell: 3,
            pursuers_dont_spawn_in_obstacle: false,
            enable_fanties: false,
            fanties_base_cell: 2,
            fanties_sight_distance: 64,
            fanties_max_v: 256,
            fanties_a: 16,
            fanties_life_gauge: 10,
            fanties_type_homing: false,
            enable_orthoshooters: false,
            orthoshooters_base_cell: 0,
        }
    }
}


impl MechanicsEnemiesConfig {
    /// Sets `CUSTOM_LOCK_CLEAR`. Returns whether the switch was just turned
    /// on, in which case the editor creates the custom lock-clearing script.
    pub fn set_custom_lock_clear(&mut self, on: bool) -> (create_script: bool)
        ensures
            *final(self) == (MechanicsEnemiesConfig { custom_lock_clear: on, ..*old(self) }),
            create_script == (on && !old(self).custom_lock_clear),
    {
        let changed = self.custom_lock_clear != on;
        self.custom_lock_clear = on;
        changed && on
    }
}

} // verus!
