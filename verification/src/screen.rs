//! One screen of the game map: a 15x10 grid of tile indices, up to three
//! enemies and one hotspot (key, refill or collectable item).

use vstd::prelude::*;

verus! {

/// Width of a screen in tiles.
pub const SCREEN_W: u8 = 15;
/// Height of a screen in tiles.
pub const SCREEN_H: u8 = 10;
/// Number of tile cells on one screen.
pub const SCREEN_CELLS: usize = 150;

/// The engine item placed on a screen. `type_id` 0 means "no hotspot",
/// 1 a key, 2 a refill (life / ammo), 3 a collectable.
#[derive(Clone, Copy, Debug, PartialEq, Eq, Structural)]
pub struct Hotspot {
    pub type_id: u8,
    pub x: u8,
    pub y: u8,
}

impl Hotspot {
    /// The empty hotspot: type 0 at the origin.
    pub open spec fn none() -> Hotspot {
        Hotspot { type_id: 0, x: 0, y: 0 }
    }
}

impl Default for Hotspot {
    fn default() -> (r: Hotspot)
        ensures
            r == Hotspot::none(),
    {
        Hotspot { type_id: 0, x: 0, y: 0 }
    }
}

/// An enemy placed on a screen. `type_id` is the engine AI type (1..=14,
/// 0 marks a free slot), `(x, y)` the start cell, `(x1, y1)`-`(x2, y2)`
/// the patrol bounds in tiles.
#[derive(Clone, Copy, Debug, PartialEq, Eq, Structural)]
pub struct Enemy {
    pub id: u64,
    pub type_id: u8,
    pub x: u8,
    pub y: u8,
    pub x1: u8,
    pub x2: u8,
    pub y1: u8,
    pub y2: u8,
    pub speed: u8,
    pub sprite_slot: u8,
}

impl Enemy {
    /// All fields zero.
    pub open spec fn zeroed() -> Enemy {
        Enemy { id: 0, type_id: 0, x: 0, y: 0, x1: 0, x2: 0, y1: 0, y2: 0, speed: 0, sprite_slot: 0 }
    }
}

impl Default for Enemy {
    fn default() -> (r: Enemy)
        ensures
            r == Enemy::zeroed(),
    {
        Enemy { id: 0, type_id: 0, x: 0, y: 0, x1: 0, x2: 0, y1: 0, y2: 0, speed: 0, sprite_slot: 0 }
    }
}

/// Speed given to enemies stored without one (pixels per frame).
pub fn default_speed() -> (r: u8)
    ensures
        r == 2,
{
    2
}

/// A fresh identifier for an enemy of the editor: the low 64 bits of the
/// nanoseconds since the Unix epoch, or 0 when the clock reads a time
/// before the epoch. Which value comes back depends on the clock.
pub fn generate_ui_id() -> u64 {
    let now = crate::clock::system_now();
    let reading = match crate::clock::since_unix_epoch(&now) {
        Some(d) => Some(crate::clock::duration_nanos(&d)),
        None => None,
    };
    crate::clock::ui_id_from_reading(reading)
}

/// Mathematical model of a screen.
#[verifier::ext_equal]
pub struct ScreenModel {
    pub tiles: Seq<u8>,
    pub enemies: Seq<Enemy>,
    pub hotspot: Hotspot,
}

pub struct ScreenData {
    pub tiles_matrix: Vec<u8>,
    pub enemies: Vec<Enemy>,
    pub hotspot: Hotspot,
}

impl View for ScreenData {
    type V = ScreenModel;

    open spec fn view(&self) -> ScreenModel {
        ScreenModel { tiles: self.tiles_matrix@, enemies: self.enemies@, hotspot: self.hotspot }
    }
}

/// Index of cell `(x, y)` in the row-major tile matrix.
pub open spec fn cell_index(x: u8, y: u8) -> int {
    y as int * 15 + x as int
}

/// Hotspot type that a special tile turns into, 0 for an ordinary tile:
/// tile 16 is a refill (type 2), 17 a collectable (type 3), 18 a key (type 1).
pub open spec fn hotspot_type_of_tile(tile_id: u8) -> u8 {
    if tile_id == 16 {
        2
    } else if tile_id == 17 {
        3
    } else if tile_id == 18 {
        1
    } else {
        0
    }
}

/// The palette tile that shows a hotspot type on the canvas: a key (1) is
/// tile 18, a refill (2) tile 16, a collectable (3) tile 17; 0 otherwise.
pub open spec fn spec_hotspot_tile(type_id: u8) -> u8 {
    if type_id == 1 {
        18
    } else if type_id == 2 {
        16
    } else if type_id == 3 {
        17
    } else {
        0
    }
}

/// Palette tile drawn for a hotspot type (see `spec_hotspot_tile`).
pub fn hotspot_source_tile(type_id: u8) -> (r: u8)
    ensures
        r == spec_hotspot_tile(type_id),
{
    match type_id {
        1 => 18,
        2 => 16,
        3 => 17,
        _ => 0,
    }
}

/// A blank screen: 150 empty tiles, no enemy, no hotspot.
pub open spec fn blank_screen() -> ScreenModel {
    ScreenModel { tiles: Seq::new(150, |i: int| 0u8), enemies: Seq::empty(), hotspot: Hotspot::none() }
}

/// Whether `(x, y)` is a cell of the 15x10 grid.
pub open spec fn on_grid(x: u8, y: u8) -> bool {
    x < 15 && y < 10
}

/// The screen after placing `tile_id` at cell `(x, y)`.
///
/// A cell off the 15x10 grid, or one past the end of a short matrix,
/// leaves the screen as it is. A hotspot tile
/// (16, 17, 18) moves the screen's hotspot to the cell and leaves an empty
/// tile 0 on the map, since the engine draws hotspots over the background.
/// Any other tile is written as is; if it covers the cell of an active
/// hotspot, the hotspot is cleared.
pub open spec fn placed_tile(m: ScreenModel, x: u8, y: u8, tile_id: u8) -> ScreenModel {
    let i = cell_index(x, y);
    if !on_grid(x, y) || i >= m.tiles.len() {
        m
    } else if hotspot_type_of_tile(tile_id) != 0 {
        ScreenModel {
            tiles: m.tiles.update(i, 0),
            enemies: m.enemies,
            hotspot: Hotspot { type_id: hotspot_type_of_tile(tile_id), x, y },
        }
    } else {
        ScreenModel {
            tiles: m.tiles.update(i, tile_id),
            enemies: m.enemies,
            hotspot: if m.hotspot.x == x && m.hotspot.y == y && m.hotspot.type_id != 0 {
                Hotspot::none()
            } else {
                m.hotspot
            },
        }
    }
}

impl Default for ScreenData {
    fn default() -> (r: ScreenData)
        ensures
            r@ == blank_screen(),
    {
        let tiles_matrix: Vec<u8> = vec![0; 150];
        let r = ScreenData { tiles_matrix, enemies: Vec::new(), hotspot: Hotspot { type_id: 0, x: 0, y: 0 } };
        assert(r@.tiles =~= blank_screen().tiles);
        r
    }
}

impl ScreenData {
    /// Places a tile on the 15x10 grid and keeps the screen's hotspot in
    /// step with it (see `placed_tile`); a cell off the grid changes nothing. `mode` does not change the result:
    /// the special tiles are the same in every tile mode.
    pub fn set_tile_and_sync(&mut self, cell_x: u8, cell_y: u8, tile_id: u8, mode: crate::project::TileMode)
        ensures
            final(self)@ == placed_tile(old(self)@, cell_x, cell_y, tile_id),
    {
        if cell_x >= SCREEN_W || cell_y >= SCREEN_H {
            return;
        }
        let index: usize = (cell_y as usize) * 15 + (cell_x as usize);
        if index >= self.tiles_matrix.len() {
            return;
        }
        if tile_id == 16 {
            self.hotspot = Hotspot { type_id: 2, x: cell_x, y: cell_y };
            self.tiles_matrix.set(index, 0);
        } else if tile_id == 17 {
            self.hotspot = Hotspot { type_id: 3, x: cell_x, y: cell_y };
            self.tiles_matrix.set(index, 0);
        } else if tile_id == 18 {
            self.hotspot = Hotspot { type_id: 1, x: cell_x, y: cell_y };
            self.tiles_matrix.set(index, 0);
        } else {
            if self.hotspot.x == cell_x && self.hotspot.y == cell_y && self.hotspot.type_id != 0 {
                self.hotspot = Hotspot { type_id: 0, x: 0, y: 0 };
            }
            self.tiles_matrix.set(index, tile_id);
        }
    }
}

/// Placing the same tile twice at the same cell gives the same screen as
/// placing it once.
pub proof fn lemma_place_tile_idempotent(m: ScreenModel, x: u8, y: u8, tile_id: u8)
    ensures
        placed_tile(placed_tile(m, x, y, tile_id), x, y, tile_id) == placed_tile(m, x, y, tile_id),
{
    let once = placed_tile(m, x, y, tile_id);
    let twice = placed_tile(once, x, y, tile_id);
    assert(twice =~= once);
}

/// Only cells of the 15x10 grid are ever written: a placement off the grid
/// leaves the screen as it is.
pub proof fn lemma_place_off_grid_changes_nothing(m: ScreenModel, x: u8, y: u8, tile_id: u8)
    requires
        !on_grid(x, y),
    ensures
        placed_tile(m, x, y, tile_id) == m,
{
}

/// Placing a tile changes only the target cell: the matrix keeps its
/// length, every other cell and the enemies are unchanged.
pub proof fn lemma_place_tile_is_local(m: ScreenModel, x: u8, y: u8, tile_id: u8, j: int)
    requires
        0 <= j < m.tiles.len(),
        j != cell_index(x, y),
    ensures
        placed_tile(m, x, y, tile_id).tiles.len() == m.tiles.len(),
        placed_tile(m, x, y, tile_id).tiles[j] == m.tiles[j],
        placed_tile(m, x, y, tile_id).enemies == m.enemies,
{
}

/// What a placement leaves at the target cell: 0 under a new hotspot
/// (which then sits at that cell), the tile itself otherwise, and no active
/// hotspot remains on the cell after an ordinary tile.
pub proof fn lemma_place_tile_reads_back(m: ScreenModel, x: u8, y: u8, tile_id: u8)
    requires
        on_grid(x, y),
        0 <= cell_index(x, y) < m.tiles.len(),
    ensures
        hotspot_type_of_tile(tile_id) != 0 ==> {
            &&& placed_tile(m, x, y, tile_id).tiles[cell_index(x, y)] == 0
            &&& placed_tile(m, x, y, tile_id).hotspot == Hotspot { type_id: hotspot_type_of_tile(tile_id), x, y }
        },
        hotspot_type_of_tile(tile_id) == 0 ==> {
            let h = placed_tile(m, x, y, tile_id).hotspot;
            &&& placed_tile(m, x, y, tile_id).tiles[cell_index(x, y)] == tile_id
            &&& !(h.type_id != 0 && h.x == x && h.y == y)
        },
{
}

/// The canvas draws a hotspot with the very tile that created it, and each
/// hotspot type comes from exactly one special tile.
pub proof fn lemma_hotspot_tile_round_trip(tile_id: u8, type_id: u8)
    ensures
        16 <= tile_id <= 18 ==> spec_hotspot_tile(hotspot_type_of_tile(tile_id)) == tile_id,
        1 <= type_id <= 3 ==> hotspot_type_of_tile(spec_hotspot_tile(type_id)) == type_id,
        !(16 <= tile_id <= 18) ==> hotspot_type_of_tile(tile_id) == 0,
{
}

/// Hotspot types stay within the engine's range 0..=3 under placements.
pub proof fn lemma_place_tile_keeps_hotspot_type(m: ScreenModel, x: u8, y: u8, tile_id: u8)
    requires
        m.hotspot.type_id <= 3,
    ensures
        placed_tile(m, x, y, tile_id).hotspot.type_id <= 3,
{
}

/// What placing a tile does, cell by cell. On a cell `(x, y)` of the grid
/// (inside the matrix): tile 16 puts a refill hotspot (type 2) there, 17 a
/// collectable (type 3), 18 a key (type 1), each leaving tile 0 on the
/// map; any other tile is written as is, and clears the hotspot exactly
/// when an active hotspot sits on that very cell, leaving it untouched
/// otherwise. The enemies never change.
pub proof fn lemma_place_tile_effect(m: ScreenModel, x: u8, y: u8, t: u8)
    requires
        x < 15,
        y < 10,
        (y as int) * 15 + (x as int) < m.tiles.len(),
    ensures
        placed_tile(m, x, y, t).enemies == m.enemies,
        placed_tile(m, x, y, t).tiles.len() == m.tiles.len(),
        t == 16 ==> placed_tile(m, x, y, t).hotspot == (Hotspot { type_id: 2, x, y }),
        t == 17 ==> placed_tile(m, x, y, t).hotspot == (Hotspot { type_id: 3, x, y }),
        t == 18 ==> placed_tile(m, x, y, t).hotspot == (Hotspot { type_id: 1, x, y }),
        16 <= t <= 18 ==> placed_tile(m, x, y, t).tiles[(y as int) * 15 + (x as int)] == 0,
        !(16 <= t <= 18) ==> placed_tile(m, x, y, t).tiles[(y as int) * 15 + (x as int)] == t,
        !(16 <= t <= 18) && (x != m.hotspot.x || y != m.hotspot.y) ==> placed_tile(m, x, y, t).hotspot
            == m.hotspot,
        !(16 <= t <= 18) && x == m.hotspot.x && y == m.hotspot.y && m.hotspot.type_id != 0
            ==> placed_tile(m, x, y, t).hotspot == (Hotspot { type_id: 0, x: 0, y: 0 }),
        !(16 <= t <= 18) && m.hotspot.type_id == 0 ==> placed_tile(m, x, y, t).hotspot == m.hotspot,
        forall|j: int|
            0 <= j < m.tiles.len() && j != (y as int) * 15 + (x as int) ==> placed_tile(m, x, y, t).tiles[j]
                == m.tiles[j],
{
}

} // verus!
