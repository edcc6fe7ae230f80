//! A small configuration block with the most used gameplay values, and its
//! view mode that defaults to the side view.

use vstd::prelude::*;

verus! {

/// Camera of the game; a new project is a side-view platformer.
#[derive(Clone, Copy, Debug, PartialEq, Eq, Structural)]
pub enum EngineViewMode {
    /// Platformer, gravity active.
    SideView,
    /// Seen from above, free movement in 4 / 8 directions.
    TopView,
}

impl Default for EngineViewMode {
    fn default() -> (r: EngineViewMode)
        ensures
            r == EngineViewMode::SideView,
    {
        EngineViewMode::SideView
    }
}

/// Lives, bullets, life counter position and enemy strength.
#[derive(Clone, Copy, Debug, PartialEq, Eq, Structural)]
pub struct PhysicsConfig {
    pub player_life_ini: u32,
    pub max_bullets: u32,
    pub hud_life_x: u32,
    pub hud_life_y: u32,
    pub enemies_life_gauge: u8,
}

impl Default for PhysicsConfig {
    fn default() -> (r: PhysicsConfig)
        ensures
            r == (PhysicsConfig { player_life_ini: 5, max_bullets: 3, hud_life_x: 1, hud_life_y: 21, enemies_life_gauge: 1 }),
    {
        PhysicsConfig { player_life_ini: 5, max_bullets: 3, hud_life_x: 1, hud_life_y: 21, enemies_life_gauge: 1 }
    }
}

} // verus!
