//! Map size in screens, start and end of the game, lives and multi-level settings.

use vstd::prelude::*;

verus! {

/// Map size in screens, start and end of the game, lives and multi-level settings.
#[derive(Clone, Debug, PartialEq, Eq, Structural)]
pub struct MapGoalsConfig {
    pub map_w: u32,
    pub map_h: u32,
    pub scr_inicio: u32,
    pub player_ini_x: u32,
    pub player_ini_y: u32,
    pub scr_fin: u32,
    pub player_fin_x: u32,
    pub player_fin_y: u32,
    pub player_num_objetos: u32,
    pub player_life: u32,
    pub player_refill: u32,
    pub compressed_levels: bool,
    pub per_level_spriteset: bool,
    pub max_levels: u32,
    pub refill_me: bool,
    pub no_reset_stats: bool,
}

impl MapGoalsConfig {
    /// The settings of a new project.
    pub open spec fn is_default(&self) -> bool {
        &&& self.map_w == 25
        &&& self.map_h == 1
        &&& self.scr_inicio == 0
        &&& self.player_ini_x == 1
        &&& self.player_ini_y == 5
        &&& self.scr_fin == 99
        &&& self.player_fin_x == 99
        &&& self.player_fin_y == 99
        &&& self.player_num_objetos == 10
        &&& self.player_life == 10
        &&& self.player_refill == 2
        &&& self.compressed_levels == false
        &&& self.per_level_spriteset == false
        &&& self.max_levels == 4
        &&& self.refill_me == false
        &&& self.no_reset_stats == false
    }
}

impl Default for MapGoalsConfig {
    fn default() -> (r: MapGoalsConfig)
        ensures
            r.is_default(),
    {
        MapGoalsConfig {
            map_w: 25,
            map_h: 1,
            scr_inicio: 0,
            player_ini_x: 1,
            player_ini_y: 5,
            scr_fin: 99,
            player_fin_x: 99,
            player_fin_y: 99,
            player_num_objetos: 10,
            player_life: 10,
            player_refill: 2,
            compressed_levels: false,
            per_level_spriteset: false,
            max_levels: 4,
            refill_me: false,
            no_reset_stats: false,
        }
    }
}

} // verus!
