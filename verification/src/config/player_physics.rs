//! Collision box of the player and how the player reacts to damage.

use vstd::prelude::*;

verus! {

/// Collision box of the player and how the player reacts to damage.
#[derive(Clone, Debug, PartialEq, Eq, Structural)]
pub struct PlayerPhysicsConfig {
    pub bounding_box_8_bottom: bool,
    pub bounding_box_8_centered: bool,
    pub bounding_box_12x2_centered: bool,
    pub small_collision: bool,
    pub player_bounces: bool,
    pub full_bounce: bool,
    pub slow_drain: bool,
    pub player_flickers: bool,
    pub die_and_respawn: bool,
    pub safe_spot_on_entering: bool,
}

impl PlayerPhysicsConfig {
    /// The settings of a new project.
    pub open spec fn is_default(&self) -> bool {
        &&& self.bounding_box_8_bottom == true
        &&& self.bounding_box_8_centered == false
        &&& self.bounding_box_12x2_centered == false
        &&& self.small_collision == true
        &&& self.player_bounces == false
        &&& self.full_bounce == false
        &&& self.slow_drain == false
        &&& self.player_flickers == false
        &&& self.die_and_respawn == true
        &&& self.safe_spot_on_entering == true
    }
}

impl Default for PlayerPhysicsConfig {
    fn default() -> (r: PlayerPhysicsConfig)
        ensures
            r.is_default(),
    {
        PlayerPhysicsConfig {
            bounding_box_8_bottom: true,
            bounding_box_8_centered: false,
            bounding_box_12x2_centered: false,
            small_collision: true,
            player_bounces: false,
            full_bounce: false,
            slow_drain: false,
            player_flickers: false,
            die_and_respawn: true,
            safe_spot_on_entering: true,
        }
    }
}


/// The collision box type the flags select: 1 the 8x8 box at the bottom,
/// 2 the centred 8x8 box, 3 the narrow 12x2 box, 0 the full 16x16 cell.
/// When several flags are set, the first in that order wins.
pub open spec fn spec_bbox_type(c: PlayerPhysicsConfig) -> u8 {
    if c.bounding_box_8_bottom {
        1
    } else if c.bounding_box_8_centered {
        2
    } else if c.bounding_box_12x2_centered {
        3
    } else {
        0
    }
}

/// The settings after the bounce-on-hit switch is set to `on`: switching
/// it on switches flickering off.
pub open spec fn with_bounces(c: PlayerPhysicsConfig, on: bool) -> PlayerPhysicsConfig {
    if on {
        PlayerPhysicsConfig { player_bounces: true, player_flickers: false, ..c }
    } else {
        PlayerPhysicsConfig { player_bounces: false, ..c }
    }
}

/// The settings after the flicker-on-hit switch is set to `on`: switching
/// it on switches bouncing off, with its full-bounce and slow-drain options.
pub open spec fn with_flickers(c: PlayerPhysicsConfig, on: bool) -> PlayerPhysicsConfig {
    if on {
        PlayerPhysicsConfig { player_flickers: true, player_bounces: false, full_bounce: false, slow_drain: false, ..c }
    } else {
        PlayerPhysicsConfig { player_flickers: false, ..c }
    }
}

/// Bouncing and flickering on a hit are never both switched on.
pub open spec fn hit_reaction_exclusive(c: PlayerPhysicsConfig) -> bool {
    !(c.player_bounces && c.player_flickers)
}

impl PlayerPhysicsConfig {
    /// The collision box type the flags select (see `spec_bbox_type`).
    pub fn bbox_type(&self) -> (r: u8)
        ensures
            r == spec_bbox_type(*self),
    {
        if self.bounding_box_8_bottom {
            1
        } else if self.bounding_box_8_centered {
            2
        } else if self.bounding_box_12x2_centered {
            3
        } else {
            0
        }
    }

    /// Selects collision box type `t` (0..=3): exactly its flag is set, or no
    /// flag for type 0. Other values change nothing.
    pub fn select_bbox(&mut self, t: u8)
        ensures
            t <= 3 ==> *final(self) == (PlayerPhysicsConfig {
                bounding_box_8_bottom: t == 1,
                bounding_box_8_centered: t == 2,
                bounding_box_12x2_centered: t == 3,
                ..*old(self)
            }),
            t > 3 ==> *final(self) == *old(self),
    {
        if t <= 3 {
            self.bounding_box_8_bottom = t == 1;
            self.bounding_box_8_centered = t == 2;
            self.bounding_box_12x2_centered = t == 3;
        }
    }

    /// Sets the bounce-on-hit switch; bouncing switches flickering off.
    pub fn set_player_bounces(&mut self, on: bool)
        ensures
            *final(self) == with_bounces(*old(self), on),
    {
        self.player_bounces = on;
        if on {
            self.player_flickers = false;
        }
    }

    /// Sets the flicker-on-hit switch; flickering switches bouncing (with
    /// its full-bounce and slow-drain options) off.
    pub fn set_player_flickers(&mut self, on: bool)
        ensures
            *final(self) == with_flickers(*old(self), on),
    {
        self.player_flickers = on;
        if on {
            self.player_bounces = false;
            self.full_bounce = false;
            self.slow_drain = false;
        }
    }
}

/// Selecting a collision box and reading the type back gives that box.
pub proof fn lemma_bbox_read_back(c: PlayerPhysicsConfig, t: u8)
    requires
        t <= 3,
    ensures
        spec_bbox_type(PlayerPhysicsConfig {
            bounding_box_8_bottom: t == 1,
            bounding_box_8_centered: t == 2,
            bounding_box_12x2_centered: t == 3,
            ..c
        }) == t,
{
}

/// Bouncing and flickering exclude each other: a new project has neither
/// on, and setting either switch, to any value, never leaves both on.
pub proof fn lemma_hit_reaction_exclusive(c: PlayerPhysicsConfig, on: bool)
    ensures
        c.is_default() ==> hit_reaction_exclusive(c),
        hit_reaction_exclusive(c) ==> hit_reaction_exclusive(with_bounces(c, on)),
        hit_reaction_exclusive(c) ==> hit_reaction_exclusive(with_flickers(c, on)),
        on ==> hit_reaction_exclusive(with_bounces(c, on)) && hit_reaction_exclusive(with_flickers(c, on)),
{
}

} // verus!
