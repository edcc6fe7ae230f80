//! Movement engine of the player (bootee / jump / jetpac), its physics constants, stomping on enemies, keyboard keys and top-view switches.

use vstd::prelude::*;

verus! {

/// Movement engine of the player (bootee / jump / jetpac), its physics constants, stomping on enemies, keyboard keys and top-view switches.
#[derive(Clone, Debug)]
pub struct MovementControlsConfig {
    pub engine_type: u32,
    pub player_max_vy_cayendo: u32,
    pub player_g: u32,
    pub player_vy_inicial_salto: u32,
    pub player_max_vy_saltando: u32,
    pub player_incr_salto: u32,
    pub player_incr_jetpac: u32,
    pub player_max_vy_jetpac: u32,
    pub player_max_vx: u32,
    pub player_ax: u32,
    pub player_rx: u32,
    pub steps_on_enemies: bool,
    pub player_can_step_on_flag: u32,
    pub player_min_killable: u32,
    pub player_step_sound: bool,
    pub player_disable_default_heng: bool,
    pub use_two_buttons: bool,
    pub key_fire: String,
    pub key_right: String,
    pub key_left: String,
    pub key_down: String,
    pub key_up: String,
    pub player_genital: bool,
    pub top_over_side: bool,
    pub player_bounce_with_walls: bool,
}

impl MovementControlsConfig {
    /// The settings of a new project.
    pub open spec fn is_default(&self) -> bool {
        &&& self.engine_type == 0
        &&& self.player_max_vy_cayendo == 512
        &&& self.player_g == 32
        &&& self.player_vy_inicial_salto == 64
        &&& self.player_max_vy_saltando == 320
        &&& self.player_incr_salto == 64
        &&& self.player_incr_jetpac == 32
        &&& self.player_max_vy_jetpac == 256
        &&& self.player_max_vx == 192
        &&& self.player_ax == 24
        &&& self.player_rx == 32
        &&& self.steps_on_enemies == false
        &&& self.player_can_step_on_flag == 0
        &&& self.player_min_killable == 3
        &&& self.player_step_sound == true
        &&& self.player_disable_default_heng == false
        &&& self.use_two_buttons == false
        &&& self.key_fire@ == "0x017f"@
        &&& self.key_right@ == "0x01df"@
        &&& self.key_left@ == "0x02df"@
        &&& self.key_down@ == "0x01fd"@
        &&& self.key_up@ == "0x01fb"@
        &&& self.player_genital == false
        &&& self.top_over_side == false
        &&& self.player_bounce_with_walls == false
    }
}

impl Default for MovementControlsConfig {
    fn default() -> (r: MovementControlsConfig)
        ensures
            r.is_default(),
    {
        MovementControlsConfig {
            engine_type: 0,
            player_max_vy_cayendo: 512,
            player_g: 32,
            player_vy_inicial_salto: 64,
            player_max_vy_saltando: 320,
            player_incr_salto: 64,
            player_incr_jetpac: 32,
            player_max_vy_jetpac: 256,
            player_max_vx: 192,
            player_ax: 24,
            player_rx: 32,
            steps_on_enemies: false,
            player_can_step_on_flag: 0,
            player_min_killable: 3,
            player_step_sound: true,
            player_disable_default_heng: false,
            use_two_buttons: false,
            key_fire: String::from_str("0x017f"),
            key_right: String::from_str("0x01df"),
            key_left: String::from_str("0x02df"),
            key_down: String::from_str("0x01fd"),
            key_up: String::from_str("0x01fb"),
            player_genital: false,
            top_over_side: false,
            player_bounce_with_walls: false,
        }
    }
}

} // verus!
