//! Tile behaviour codes (`behs[]` in the engine): a bit mask per tile.
//! Bit 1 kills, 2 hides the player, 4 is a platform, 8 an obstacle,
//! 16 a breakable wall; 10 marks a push box / lock.

use vstd::prelude::*;

verus! {

/// Behaviour bit: the tile kills the player.
pub const BEH_KILLS: u8 = 1;
/// Behaviour bit: the tile hides the player.
pub const BEH_HIDES: u8 = 2;
/// Behaviour bit: the tile is a platform (solid from above only).
pub const BEH_PLATFORM: u8 = 4;
/// Behaviour bit: the tile is a solid wall.
pub const BEH_OBSTACLE: u8 = 8;
/// Behaviour bit: the tile can be shot to pieces.
pub const BEH_BREAKABLE: u8 = 16;

/// The code after switching `bit` on or off. A platform and an obstacle
/// exclude each other: switching one on switches the other off.
pub open spec fn toggled(val: u8, bit: u8, set: bool) -> u8 {
    if set {
        let v = val | bit;
        let v = if bit == 8 { v & !4u8 } else { v };
        if bit == 4 { v & !8u8 } else { v }
    } else {
        val & !bit
    }
}

/// Switches `bit` of a behaviour code on (`set`) or off.
pub fn toggle_bit(val: &mut u8, bit: u8, set: bool)
    ensures
        *final(val) == toggled(*old(val), bit, set),
{
    if set {
        *val |= bit;
        if bit == 8 {
            *val &= !4;
        }
        if bit == 4 {
            *val &= !8;
        }
    } else {
        *val &= !bit;
    }
}

/// The flags of a behaviour code, as the tile inspector shows them.
#[derive(Clone, Copy, Debug, PartialEq, Eq, Structural)]
pub struct BehaviourFlags {
    pub kills: bool,
    pub hides: bool,
    pub platform: bool,
    pub obstacle: bool,
    pub breakable: bool,
}

/// Splits a behaviour code into its flags.
pub fn behaviour_flags(val: u8) -> (r: BehaviourFlags)
    ensures
        r.kills == (val & 1 != 0),
        r.hides == (val & 2 != 0),
        r.platform == (val & 4 != 0),
        r.obstacle == (val & 8 != 0),
        r.breakable == (val & 16 != 0),
{
    BehaviourFlags {
        kills: val & 1 != 0,
        hides: val & 2 != 0,
        platform: val & 4 != 0,
        obstacle: val & 8 != 0,
        breakable: val & 16 != 0,
    }
}

/// For each of the five flags: switching it on sets it, switching it off
/// clears it, and the flags other than the one switched and its exclusive
/// partner (platform / obstacle) keep their value. After switching the
/// platform or the obstacle on, the two are never both set.
pub proof fn lemma_toggle_flag(val: u8, bit: u8, other: u8, set: bool)
    requires
        bit == 1 || bit == 2 || bit == 4 || bit == 8 || bit == 16,
        other == 1 || other == 2 || other == 4 || other == 8 || other == 16,
        other != bit,
        !(bit == 4 && other == 8),
        !(bit == 8 && other == 4),
    ensures
        set ==> toggled(val, bit, set) & bit == bit,
        !set ==> toggled(val, bit, set) & bit == 0,
        toggled(val, bit, set) & other == val & other,
        set && (bit == 4 || bit == 8) ==> toggled(val, bit, set) & 12 != 12,
{
    assert(set ==> toggled(val, bit, set) & bit == bit) by (bit_vector)
        requires
            bit == 1 || bit == 2 || bit == 4 || bit == 8 || bit == 16;
    assert(!set ==> toggled(val, bit, set) & bit == 0) by (bit_vector);
    assert(toggled(val, bit, set) & other == val & other) by (bit_vector)
        requires
            bit == 1 || bit == 2 || bit == 4 || bit == 8 || bit == 16,
            other == 1 || other == 2 || other == 4 || other == 8 || other == 16,
            other != bit,
            !(bit == 4 && other == 8),
            !(bit == 8 && other == 4);
    assert(set && (bit == 4 || bit == 8) ==> toggled(val, bit, set) & 12 != 12) by (bit_vector);
}

/// Switching a flag on and then off leaves it clear, whatever the code was.
pub proof fn lemma_toggle_on_then_off(val: u8, bit: u8)
    ensures
        toggled(toggled(val, bit, true), bit, false) & bit == 0,
{
    assert(toggled(toggled(val, bit, true), bit, false) & bit == 0) by (bit_vector);
}

} // verus!
