//! Global game settings: frame limiter, audio, start and end of the game, levels, and the physics constants of the player (`config.h` sections I-IV).

use vstd::prelude::*;

verus! {

/// Global game settings: frame limiter, audio, start and end of the game, levels, and the physics constants of the player (`config.h` sections I-IV).
#[derive(Clone, Debug, PartialEq, Eq, Structural)]
pub struct GeneralConfig {
    pub min_faps_per_frame: u32,
    pub use_arkos_player: bool,
    pub arkos_sfx_channel: u32,
    pub veng_selector: bool,
    pub use_map_custom_decoder: bool,
    pub player_ini_x: u32,
    pub player_ini_y: u32,
    pub scr_fin: u32,
    pub player_fin_x: u32,
    pub player_fin_y: u32,
    pub player_num_objetos: u32,
    pub player_life_ini: u32,
    pub player_refill: u32,
    pub compressed_levels: bool,
    pub per_level_spriteset: bool,
    pub max_levels: u32,
    pub refill_me: bool,
    pub no_reset_stats: bool,
    pub player_max_vy_cayendo: u32,
    pub player_g: u32,
    pub player_vy_inicial_salto: u32,
    pub player_max_vy_saltando: u32,
    pub player_incr_salto: u32,
    pub player_incr_jetpac: u32,
    pub player_max_vy_jetpac: u32,
    pub player_max_vx: u32,
    pub player_ax: u32,
    pub player_rx: u32,
}

// Values taken by fields that a stored project lacks.

pub fn default_min_faps() -> (r: u32)
    ensures
        r == 2,
{
    2
}

pub fn default_player_ini() -> (r: u32)
    ensures
        r == 1,
{
    1
}

pub fn default_99() -> (r: u32)
    ensures
        r == 99,
{
    99
}

pub fn default_life() -> (r: u32)
    ensures
        r == 15,
{
    15
}

pub fn default_1() -> (r: u32)
    ensures
        r == 1,
{
    1
}

pub fn default_512() -> (r: u32)
    ensures
        r == 512,
{
    512
}

pub fn default_48() -> (r: u32)
    ensures
        r == 48,
{
    48
}

pub fn default_96() -> (r: u32)
    ensures
        r == 96,
{
    96
}

pub fn default_312() -> (r: u32)
    ensures
        r == 312,
{
    312
}

pub fn default_32() -> (r: u32)
    ensures
        r == 32,
{
    32
}

pub fn default_256() -> (r: u32)
    ensures
        r == 256,
{
    256
}

pub fn default_64() -> (r: u32)
    ensures
        r == 64,
{
    64
}

impl GeneralConfig {
    /// The settings of a new project.
    pub open spec fn is_default(&self) -> bool {
        &&& self.min_faps_per_frame == 2
        &&& self.use_arkos_player == false
        &&& self.arkos_sfx_channel == 0
        &&& self.veng_selector == false
        &&& self.use_map_custom_decoder == false
        &&& self.player_ini_x == 1
        &&& self.player_ini_y == 7
        &&& self.scr_fin == 99
        &&& self.player_fin_x == 99
        &&& self.player_fin_y == 99
        &&& self.player_num_objetos == 99
        &&& self.player_life_ini == 15
        &&& self.player_refill == 1
        &&& self.compressed_levels == false
        &&& self.per_level_spriteset == false
        &&& self.max_levels == 1
        &&& self.refill_me == false
        &&& self.no_reset_stats == false
        &&& self.player_max_vy_cayendo == 512
        &&& self.player_g == 48
        &&& self.player_vy_inicial_salto == 96
        &&& self.player_max_vy_saltando == 312
        &&& self.player_incr_salto == 48
        &&& self.player_incr_jetpac == 32
        &&& self.player_max_vy_jetpac == 256
        &&& self.player_max_vx == 256
        &&& self.player_ax == 48
        &&& self.player_rx == 64
    }
}

impl Default for GeneralConfig {
    fn default() -> (r: GeneralConfig)
        ensures
            r.is_default(),
    {
        GeneralConfig {
            min_faps_per_frame: 2,
            use_arkos_player: false,
            arkos_sfx_channel: 0,
            veng_selector: false,
            use_map_custom_decoder: false,
            player_ini_x: 1,
            player_ini_y: 7,
            scr_fin: 99,
            player_fin_x: 99,
            player_fin_y: 99,
            player_num_objetos: 99,
            player_life_ini: 15,
            player_refill: 1,
            compressed_levels: false,
            per_level_spriteset: false,
            max_levels: 1,
            refill_me: false,
            no_reset_stats: false,
            player_max_vy_cayendo: 512,
            player_g: 48,
            player_vy_inicial_salto: 96,
            player_max_vy_saltando: 312,
            player_incr_salto: 48,
            player_incr_jetpac: 32,
            player_max_vy_jetpac: 256,
            player_max_vx: 256,
            player_ax: 48,
            player_rx: 64,
        }
    }
}

} // verus!
