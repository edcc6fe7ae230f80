//! Tile modes of the engine and the project as a whole.

use vstd::prelude::*;
use std::collections::HashMap;
use crate::config::PhysicsConfig;
use crate::screen::{ScreenData, blank_screen, placed_tile};

verus! {

/// How the map stores its tiles.
#[derive(Clone, Copy, Debug, PartialEq, Eq, Structural)]
pub enum TileMode {
    /// 16 map tiles packed 4 bits per cell, plus 4 special tiles.
    Packed16,
    /// As `Packed16`, with automatic shadows (double-height tileset).
    Packed16WithShadows,
    /// 48 tiles, one byte per cell; special tiles live at fixed indices.
    Extended48,
}


/// The sixteen behaviour codes every tile mode starts from.
pub open spec fn base_behaviours() -> Seq<u8> {
    seq![0u8, 0, 8, 8, 8, 8, 1, 1, 8, 0, 1, 8, 0, 8, 8, 8]
}

/// Default behaviour table of a mode: the sixteen base codes, padded with
/// walkable (0) entries up to 48 in the extended mode.
pub open spec fn default_behaviour_table(mode: TileMode) -> Seq<u8> {
    match mode {
        TileMode::Extended48 => base_behaviours() + Seq::new(32, |i: int| 0u8),
        _ => base_behaviours(),
    }
}

/// Number of entries of the behaviour table in a mode.
pub open spec fn spec_behaviours_count(mode: TileMode) -> nat {
    match mode {
        TileMode::Extended48 => 48,
        _ => 16,
    }
}

/// Highest tile index a user may paint in a mode.
pub open spec fn spec_max_paintable(mode: TileMode) -> nat {
    match mode {
        TileMode::Extended48 => 47,
        _ => 15,
    }
}

impl TileMode {
    pub fn name(&self) -> (r: &'static str)
        ensures
            r@ == (match *self {
                TileMode::Packed16 => "16 Tiles (Экономный)"@,
                TileMode::Packed16WithShadows => "16 Tiles + Автошейдинг"@,
                TileMode::Extended48 => "48 Tiles (Максимальный)"@,
            }),
    {
        match self {
            TileMode::Packed16 => "16 Tiles (Экономный)",
            TileMode::Packed16WithShadows => "16 Tiles + Автошейдинг",
            TileMode::Extended48 => "48 Tiles (Максимальный)",
        }
    }

    pub fn description(&self) -> (r: &'static str)
        ensures
            r@ == (match *self {
                TileMode::Packed16 => "Карта сжимается в 2 раза (4 бита на тайл). Доступны тайлы 0-15 для рисования. Тайлы 16-19 зарезервированы под спец-объекты (жизнь, предметы, ключи, альт-фон)."@,
                TileMode::Packed16WithShadows => "Включает экономный режим 16 тайлов и генерирует автоматические тени. Требует двойную высоту тайлсета (нижний ряд содержит затененные копии)."@,
                TileMode::Extended48 => "Максимальное разнообразие графики (0-47). Карта занимает в 2 раза больше RAM. Служебные объекты жестко привязаны к индексам 14-18 внутри палитры."@,
            }),
    {
        match self {
            TileMode::Packed16 => "Карта сжимается в 2 раза (4 бита на тайл). Доступны тайлы 0-15 для рисования. Тайлы 16-19 зарезервированы под спец-объекты (жизнь, предметы, ключи, альт-фон).",
            TileMode::Packed16WithShadows => "Включает экономный режим 16 тайлов и генерирует автоматические тени. Требует двойную высоту тайлсета (нижний ряд содержит затененные копии).",
            TileMode::Extended48 => "Максимальное разнообразие графики (0-47). Карта занимает в 2 раза больше RAM. Служебные объекты жестко привязаны к индексам 14-18 внутри палитры.",
        }
    }

    /// Expected pixel size (width, height) of the tileset image `work.png`.
    pub fn expected_dimensions(&self) -> (r: (u32, u32))
        ensures
            r == (match *self {
                TileMode::Packed16WithShadows => (256u32, 96u32),
                _ => (256u32, 48u32),
            }),
    {
        match self {
            TileMode::Packed16 => (256, 48),
            TileMode::Packed16WithShadows => (256, 96),
            TileMode::Extended48 => (256, 48),
        }
    }

    /// Highest tile index that may be painted on the map.
    pub fn max_paintable_tile_index(&self) -> (r: usize)
        ensures
            r == spec_max_paintable(*self),
    {
        match self {
            TileMode::Packed16 | TileMode::Packed16WithShadows => 15,
            TileMode::Extended48 => 47,
        }
    }

    /// Size of the tile behaviour table for this mode.
    pub fn behaviours_count(&self) -> (r: usize)
        ensures
            r == spec_behaviours_count(*self),
    {
        match self {
            TileMode::Packed16 | TileMode::Packed16WithShadows => 16,
            TileMode::Extended48 => 48,
        }
    }

    /// The default behaviour table of this mode.
    pub fn default_behaviours(&self) -> (r: Vec<u8>)
        ensures
            r@ == default_behaviour_table(*self),
    {
        let base_16: Vec<u8> = vec![0, 0, 8, 8, 8, 8, 1, 1, 8, 0, 1, 8, 0, 8, 8, 8];
        assert(base_16@ =~= base_behaviours());
        match self {
            TileMode::Packed16 | TileMode::Packed16WithShadows => base_16,
            TileMode::Extended48 => {
                let mut behaviours = base_16;
                while behaviours.len() < 48
                    invariant
                        16 <= behaviours.len() <= 48,
                        behaviours@.subrange(0, 16) == base_behaviours(),
                        forall|i: int| 16 <= i < behaviours.len() ==> behaviours@[i] == 0,
                    decreases 48 - behaviours.len(),
                {
                    behaviours.push(0);
                }
                assert(behaviours@ =~= default_behaviour_table(TileMode::Extended48));
                behaviours
            }
        }
    }
}

/// Tile mode assumed for projects stored without one.
pub fn default_tile_mode() -> (r: TileMode)
    ensures
        r == TileMode::Packed16,
{
    TileMode::Packed16
}

/// In every mode the default behaviour table has exactly the mode's table
/// size, and every paintable tile has an entry in it.
pub proof fn lemma_default_behaviours_fit_mode(mode: TileMode)
    ensures
        default_behaviour_table(mode).len() == spec_behaviours_count(mode),
        spec_max_paintable(mode) < spec_behaviours_count(mode),
{
}


/// Glyph of 'A' (character 33 of the font) in a new project.
pub open spec fn glyph_a() -> Seq<u8> {
    seq![0x18u8, 0x24, 0x42, 0x7e, 0x42, 0x42, 0x42, 0x00]
}

/// Glyph of 'B' (character 34 of the font) in a new project.
pub open spec fn glyph_b() -> Seq<u8> {
    seq![0x7cu8, 0x42, 0x42, 0x7c, 0x42, 0x42, 0x7c, 0x00]
}

/// The font of a new project: 96 blank 8x8 characters (768 bytes, one byte
/// per pixel row) with the outlines of 'A' and 'B' filled in.
pub open spec fn starter_font() -> Seq<u8> {
    Seq::new(
        768,
        |i: int|
            if 264 <= i < 272 {
                glyph_a()[i - 264]
            } else if 272 <= i < 280 {
                glyph_b()[i - 272]
            } else {
                0u8
            },
    )
}

/// The font given to a project stored without one.
pub fn default_project_font() -> (r: Vec<u8>)
    ensures
        r@ == starter_font(),
{
    let mut default_font: Vec<u8> = vec![0u8; 768];
    let a_idx: usize = 33 * 8;
    default_font.set(a_idx + 0, 0b00011000);
    default_font.set(a_idx + 1, 0b00100100);
    default_font.set(a_idx + 2, 0b01000010);
    default_font.set(a_idx + 3, 0b01111110);
    default_font.set(a_idx + 4, 0b01000010);
    default_font.set(a_idx + 5, 0b01000010);
    default_font.set(a_idx + 6, 0b01000010);
    default_font.set(a_idx + 7, 0b00000000);
    let b_idx: usize = 34 * 8;
    default_font.set(b_idx + 0, 0b01111100);
    default_font.set(b_idx + 1, 0b01000010);
    default_font.set(b_idx + 2, 0b01000010);
    default_font.set(b_idx + 3, 0b01111100);
    default_font.set(b_idx + 4, 0b01000010);
    default_font.set(b_idx + 5, 0b01000010);
    default_font.set(b_idx + 6, 0b01111100);
    default_font.set(b_idx + 7, 0b00000000);
    assert(default_font@ =~= starter_font());
    default_font
}

/// A project: configuration, the screens of the map by screen index, the
/// tile mode, the roles of the special tiles 14..=19, the behaviour table
/// and the font.
pub struct ProjectData {
    pub config: PhysicsConfig,
    pub screens: HashMap<u64, ScreenData>,
    pub tile_mode: TileMode,
    /// Role of tile 14: push box.
    pub role_pushbox_active: bool,
    /// Role of tile 15: lock.
    pub role_lock_active: bool,
    /// Role of tile 16: refill.
    pub role_refill_active: bool,
    /// Role of tile 17: collectable.
    pub role_collectable_active: bool,
    /// Role of tile 18: key.
    pub role_key_active: bool,
    /// Role of tile 19: alternative background.
    pub role_alt_bg_active: bool,
    pub tile_behaviours: Vec<u8>,
    pub font_data: Vec<u8>,
}

impl Default for ProjectData {
    fn default() -> (r: ProjectData)
        ensures
            r.config.is_default(),
            r.screens@.dom() == set![0u64],
            r.screens@[0]@ == blank_screen(),
            r.tile_mode == TileMode::Packed16,
            !r.role_pushbox_active && !r.role_lock_active && !r.role_refill_active,
            !r.role_collectable_active && !r.role_key_active && !r.role_alt_bg_active,
            r.tile_behaviours@ == default_behaviour_table(TileMode::Packed16),
            r.font_data@ == starter_font(),
    {
        broadcast use vstd::std_specs::hash::group_hash_axioms;
        let mut screens: HashMap<u64, ScreenData> = HashMap::new();
        screens.insert(0, ScreenData::default());
        assert(screens@.dom() =~= set![0u64]);
        let default_mode = TileMode::Packed16;
        ProjectData {
            config: PhysicsConfig::default(),
            screens,
            tile_mode: default_mode,
            role_pushbox_active: false,
            role_lock_active: false,
            role_refill_active: false,
            role_collectable_active: false,
            role_key_active: false,
            role_alt_bg_active: false,
            tile_behaviours: default_mode.default_behaviours(),
            font_data: default_project_font(),
        }
    }
}

/// The model of screen `idx`: the stored screen, or a blank one for an
/// index that has none yet.
pub open spec fn screen_or_blank(screens: Map<u64, ScreenData>, idx: u64) -> crate::screen::ScreenModel {
    if screens.contains_key(idx) {
        screens[idx]@
    } else {
        blank_screen()
    }
}

impl ProjectData {
    /// Switches the tile mode. A different mode resets the behaviour table
    /// to that mode's defaults; choosing the current mode changes nothing.
    pub fn set_tile_mode(&mut self, mode: TileMode)
        ensures
            final(self).tile_mode == mode,
            mode != old(self).tile_mode ==> final(self).tile_behaviours@ == default_behaviour_table(mode),
            mode == old(self).tile_mode ==> final(self).tile_behaviours@ == old(self).tile_behaviours@,
            final(self).screens@ == old(self).screens@,
            final(self).font_data@ == old(self).font_data@,
    {
        if mode != self.tile_mode {
            self.tile_mode = mode;
            self.tile_behaviours = mode.default_behaviours();
        }
    }

    /// Takes screen `idx` out of the project for editing: the stored screen,
    /// or a blank one if the map has none at that index yet.
    pub fn take_screen(&mut self, idx: u64) -> (s: ScreenData)
        ensures
            s@ == screen_or_blank(old(self).screens@, idx),
            final(self).screens@ == old(self).screens@.remove(idx),
            final(self).tile_mode == old(self).tile_mode,
            final(self).tile_behaviours@ == old(self).tile_behaviours@,
            final(self).font_data@ == old(self).font_data@,
    {
        broadcast use vstd::std_specs::hash::group_hash_axioms;
        match self.screens.remove(&idx) {
            Some(s) => s,
            None => ScreenData::default(),
        }
    }

    /// Stores screen `s` at index `idx`, replacing what was there.
    pub fn put_screen(&mut self, idx: u64, s: ScreenData)
        ensures
            final(self).screens@ == old(self).screens@.insert(idx, s),
            final(self).tile_mode == old(self).tile_mode,
            final(self).tile_behaviours@ == old(self).tile_behaviours@,
            final(self).font_data@ == old(self).font_data@,
    {
        broadcast use vstd::std_specs::hash::group_hash_axioms;
        self.screens.insert(idx, s);
    }

    /// Paints `tile_id` at cell `(x, y)` of screen `idx` (creating the
    /// screen blank if it does not exist yet), keeping its hotspot in step.
    pub fn paint_tile(&mut self, idx: u64, x: u8, y: u8, tile_id: u8)
        ensures
            final(self).screens@.dom() == old(self).screens@.dom().insert(idx),
            final(self).screens@[idx]@ == placed_tile(screen_or_blank(old(self).screens@, idx), x, y, tile_id),
            forall|k: u64| k != idx && old(self).screens@.contains_key(k) ==> final(self).screens@[k]
                == old(self).screens@[k],
    {
        let mode = self.tile_mode;
        let mut s = self.take_screen(idx);
        s.set_tile_and_sync(x, y, tile_id, mode);
        self.put_screen(idx, s);
        assert(self.screens@.dom() =~= old(self).screens@.dom().insert(idx));
    }
}

/// A screen stored and then taken back out is the same screen, and the
/// other screens keep their content.
pub proof fn lemma_put_then_take(screens: Map<u64, ScreenData>, idx: u64, s: ScreenData, other: u64)
    requires
        other != idx,
    ensures
        screen_or_blank(screens.insert(idx, s), idx) == s@,
        screen_or_blank(screens.insert(idx, s), other) == screen_or_blank(screens, other),
        screens.insert(idx, s).remove(idx) == screens.remove(idx),
{
    assert(screens.insert(idx, s).remove(idx) =~= screens.remove(idx));
}

} // verus!
