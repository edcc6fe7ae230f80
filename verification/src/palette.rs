//! The tile palette of the map editor and the memory summary of the map.

use vstd::prelude::*;
use crate::project::{TileMode, spec_max_paintable};

verus! {

/// Number of tiles the palette offers in a mode: 16 map tiles and 4 special
/// tiles when packed, every sliced tile with shadows, 48 when extended.
pub fn palette_tile_count(mode: TileMode, sliced_tiles: usize) -> (r: usize)
    ensures
        r == match mode {
            TileMode::Packed16 => 20,
            TileMode::Packed16WithShadows => sliced_tiles,
            TileMode::Extended48 => 48,
        },
{
    match mode {
        TileMode::Packed16 => 20,
        TileMode::Packed16WithShadows => sliced_tiles,
        TileMode::Extended48 => 48,
    }
}

/// Brings the selected brush back to tile 0 when it lies past the palette.
pub fn clamp_selected_tile(selected: &mut u8, total_tiles: usize)
    ensures
        *final(selected) == if *old(selected) as int >= total_tiles { 0u8 } else { *old(selected) },
{
    if *selected as usize >= total_tiles {
        *selected = 0;
    }
}

/// Whether tile `t` is an ordinary map tile in a mode (not a special one).
pub fn is_standard_tile(mode: TileMode, t: usize) -> (r: bool)
    ensures
        r == (t <= spec_max_paintable(mode)),
{
    t <= mode.max_paintable_tile_index()
}

/// Whether a palette button can be clicked: every tile except the special
/// tile 19 (random background), which the engine places by itself.
pub fn tile_selectable(t: usize, is_standard: bool) -> (r: bool)
    ensures
        r == (t != 19 || is_standard),
{
    t != 19 || is_standard
}

/// The special tile whose engine role the inspector shows for tile `t`:
/// 14..=18 in the extended mode, 14..=19 in the packed modes.
pub fn role_tile(mode: TileMode, t: u8) -> (r: Option<u8>)
    ensures
        r == if (mode == TileMode::Extended48 && 14 <= t <= 18) || (mode != TileMode::Extended48 && 14 <= t <= 19) {
            Some(t)
        } else {
            None
        },
{
    let is_extended = mode == TileMode::Extended48;
    if is_extended {
        if t >= 14 && t <= 18 { Some(t) } else { None }
    } else {
        if t >= 14 && t <= 19 { Some(t) } else { None }
    }
}

/// Label of a behaviour code in the tile inspector.
pub fn behaviour_label(beh: u8) -> (r: &'static str)
    ensures
        r@ == if beh == 0 {
            "🚶 0: Walkable"@
        } else if beh == 1 {
            "💀 1: Kills"@
        } else if beh == 2 {
            "🌿 2: Hide (Кусты/Маскировка)"@
        } else if beh == 4 {
            "🧗 4: Platform"@
        } else if beh == 8 {
            "🧱 8: Obstacle"@
        } else if beh == 10 {
            "⚙️ 10: Interactable"@
        } else if beh == 16 {
            "💥 16: Destructible"@
        } else {
            "Маска физики (Комбинированная)"@
        },
{
    match beh {
        0 => "🚶 0: Walkable",
        1 => "💀 1: Kills",
        2 => "🌿 2: Hide (Кусты/Маскировка)",
        4 => "🧗 4: Platform",
        8 => "🧱 8: Obstacle",
        10 => "⚙️ 10: Interactable",
        16 => "💥 16: Destructible",
        _ => "Маска физики (Комбинированная)",
    }
}

/// Size of the map in RAM: the number of screens and the bytes of their
/// tiles (150 per screen, halved and rounded up when packed 4 bits a tile).
pub open spec fn map_ram_bytes(map_w: u32, map_h: u32, mode: TileMode) -> int {
    let cells = map_w as int * map_h as int * 150;
    match mode {
        TileMode::Extended48 => cells,
        _ => (cells + 1) / 2,
    }
}

/// The world size line of the configurator: (screens, map bytes in RAM).
pub fn map_ram_usage(map_w: u32, map_h: u32, mode: TileMode) -> (r: (u64, u128))
    ensures
        r.0 == map_w as int * map_h as int,
        r.1 == map_ram_bytes(map_w, map_h, mode),
{
    assert(map_w as int * map_h as int <= 0xffff_ffff * 0xffff_ffff) by (nonlinear_arith)
        requires
            map_w <= 0xffff_ffff,
            map_h <= 0xffff_ffff;
    let screens: u64 = map_w as u64 * map_h as u64;
    let cells: u128 = screens as u128 * 150;
    let bytes: u128 = match mode {
        TileMode::Packed16 | TileMode::Packed16WithShadows => (cells + 1) / 2,
        TileMode::Extended48 => cells,
    };
    (screens, bytes)
}

} // verus!
