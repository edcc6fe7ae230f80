//! The engine configuration (`config.h`) edited by the configurator, split
//! into its sections.

pub mod compact;
pub mod engine;
pub mod general;
pub mod hud;
pub mod hud_rendering;
pub mod map_goals;
pub mod mechanics_enemies;
pub mod movement_controls;
pub mod player_physics;
pub mod shooting_boxes;
pub mod tile_behaviour;

use vstd::prelude::*;
use self::engine::EngineConfig;
use self::general::GeneralConfig;
use self::hud::HudConfig;

verus! {

/// The configuration stored in a project.
#[derive(Clone, Debug)]
pub struct PhysicsConfig {
    pub general: GeneralConfig,
    pub engine: EngineConfig,
    pub hud: HudConfig,
}

impl PhysicsConfig {
    /// Every section holds the settings of a new project.
    pub open spec fn is_default(&self) -> bool {
        &&& self.general.is_default()
        &&& self.engine.is_default()
        &&& self.hud.is_default()
    }
}

impl Default for PhysicsConfig {
    fn default() -> (r: PhysicsConfig)
        ensures
            r.is_default(),
    {
        PhysicsConfig { general: GeneralConfig::default(), engine: EngineConfig::default(), hud: HudConfig::default() }
    }
}

/// Camera of the game: side view (platformer with gravity) or top view.
#[derive(Clone, Copy, Debug, PartialEq, Eq, Structural)]
pub enum EngineViewMode {
    SideView,
    TopView,
}

/// The pages of the configurator.
#[derive(Clone, Copy, Debug, PartialEq, Eq, Structural)]
pub enum ConfigTab {
    General,
    ShootingBoxes,
    TileBehaviour,
    PlayerPhysics,
    HudRendering,
    MovementControls,
    MechanicsEnemies,
    MapGoals,
    FontEditor,
}

} // verus!
