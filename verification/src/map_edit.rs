//! Editing rules of the map canvas: placing, dragging, retyping and erasing
//! enemies, the eraser tool and the choice of the active screen.

use vstd::prelude::*;
use crate::screen::{Enemy, ScreenData, ScreenModel, placed_tile};
use crate::project::TileMode;

verus! {

/// The engine holds at most this many enemies per screen.
pub const MAX_ENEMIES: usize = 3;

/// `v + 2`, but no further than `max`.
pub open spec fn two_further(v: u8, max: u8) -> u8 {
    if v as int + 2 < max as int { (v + 2) as u8 } else { max }
}

/// `v - 1`, but not below 0.
pub open spec fn one_back(v: u8) -> u8 {
    if v == 0 { 0 } else { (v - 1) as u8 }
}

fn step_two_further(v: u8, max: u8) -> (r: u8)
    ensures
        r == two_further(v, max),
{
    if v < max && max - v > 2 { v + 2 } else { max }
}

fn step_one_back(v: u8) -> (r: u8)
    ensures
        r == one_back(v),
{
    if v == 0 { 0 } else { v - 1 }
}

/// Index of the first live enemy (type not 0) starting at cell `(x, y)`,
/// looking from index `from` on.
pub open spec fn live_enemy_at_from(s: Seq<Enemy>, x: u8, y: u8, from: int) -> Option<int>
    decreases s.len() - from,
{
    if from < 0 || from >= s.len() {
        None
    } else if s[from].type_id != 0 && s[from].x == x && s[from].y == y {
        Some(from)
    } else {
        live_enemy_at_from(s, x, y, from + 1)
    }
}

/// Index of the first live enemy starting at cell `(x, y)`.
pub open spec fn live_enemy_at(s: Seq<Enemy>, x: u8, y: u8) -> Option<int> {
    live_enemy_at_from(s, x, y, 0)
}

/// Index of the first free slot (type 0), looking from index `from` on.
pub open spec fn free_slot_from(s: Seq<Enemy>, from: int) -> Option<int>
    decreases s.len() - from,
{
    if from < 0 || from >= s.len() {
        None
    } else if s[from].type_id == 0 {
        Some(from)
    } else {
        free_slot_from(s, from + 1)
    }
}

/// Index of the first free slot.
pub open spec fn free_slot(s: Seq<Enemy>) -> Option<int> {
    free_slot_from(s, 0)
}

proof fn lemma_live_enemy_at_from_props(s: Seq<Enemy>, x: u8, y: u8, from: int)
    requires
        0 <= from,
    ensures
        live_enemy_at_from(s, x, y, from) matches Some(i) ==> from <= i < s.len() && s[i].type_id != 0
            && s[i].x == x && s[i].y == y,
        live_enemy_at_from(s, x, y, from) is None ==> forall|j: int|
            from <= j < s.len() ==> !(s[j].type_id != 0 && s[j].x == x && s[j].y == y),
    decreases s.len() - from,
{
    if from < s.len() {
        lemma_live_enemy_at_from_props(s, x, y, from + 1);
    }
}

proof fn lemma_free_slot_from_props(s: Seq<Enemy>, from: int)
    requires
        0 <= from,
    ensures
        free_slot_from(s, from) matches Some(i) ==> from <= i < s.len() && s[i].type_id == 0,
        free_slot_from(s, from) is None ==> forall|j: int| from <= j < s.len() ==> s[j].type_id != 0,
    decreases s.len() - from,
{
    if from < s.len() {
        lemma_free_slot_from_props(s, from + 1);
    }
}

/// Finds the first live enemy that starts at cell `(x, y)`.
pub fn find_enemy_at(screen: &ScreenData, x: u8, y: u8) -> (r: Option<usize>)
    ensures
        match r {
            Some(i) => live_enemy_at(screen.enemies@, x, y) == Some(i as int),
            None => live_enemy_at(screen.enemies@, x, y) is None,
        },
{
    let mut i: usize = 0;
    while i < screen.enemies.len()
        invariant
            i <= screen.enemies.len(),
            live_enemy_at(screen.enemies@, x, y) == live_enemy_at_from(screen.enemies@, x, y, i as int),
        decreases screen.enemies.len() - i,
    {
        let e = screen.enemies[i];
        if e.type_id != 0 && e.x == x && e.y == y {
            return Some(i);
        }
        i += 1;
    }
    None
}

/// The id of the live enemy at cell `(x, y)`, which a right click selects
/// for the inspector.
pub fn enemy_id_at(screen: &ScreenData, x: u8, y: u8) -> (r: Option<u64>)
    ensures
        match live_enemy_at(screen.enemies@, x, y) {
            Some(i) => r == Some(screen.enemies@[i].id),
            None => r is None,
        },
{
    proof {
        lemma_live_enemy_at_from_props(screen.enemies@, x, y, 0);
    }
    match find_enemy_at(screen, x, y) {
        Some(i) => Some(screen.enemies[i].id),
        None => None,
    }
}

fn find_free_slot(enemies: &Vec<Enemy>) -> (r: Option<usize>)
    ensures
        match r {
            Some(i) => free_slot(enemies@) == Some(i as int),
            None => free_slot(enemies@) is None,
        },
{
    let mut i: usize = 0;
    while i < enemies.len()
        invariant
            i <= enemies.len(),
            free_slot(enemies@) == free_slot_from(enemies@, i as int),
        decreases enemies.len() - i,
    {
        if enemies[i].type_id == 0 {
            return Some(i);
        }
        i += 1;
    }
    None
}

/// The AI given to a new enemy: the palette's default, except that the
/// default type 1 follows the chosen sprite slot (slot 1 a Fanty ghost,
/// slot 2 a wall walker, slot 3 a platform / pursuer).
pub open spec fn spawn_ai(default_ai: u8, sprite_slot: u8) -> u8 {
    if default_ai == 1 {
        if sprite_slot == 1 {
            6
        } else if sprite_slot == 2 {
            9
        } else if sprite_slot == 3 {
            4
        } else {
            1
        }
    } else {
        default_ai
    }
}

/// A new enemy of AI `ai` at cell `(x, y)` with its default patrol bounds:
/// linear types 1..=3 patrol two cells to the right, wall walkers 7..=10 a
/// box from one cell up-left to two cells down-right, ghosts 5 and 6 have no
/// bounds, the side-view platform (4) rides two cells down, and any other
/// type patrols two cells to the right on its row.
pub open spec fn spawned_enemy(x: u8, y: u8, ai: u8, sprite_slot: u8, is_top_down: bool, id: u64) -> Enemy {
    let base = Enemy { id, type_id: ai, x, y, x1: x, y1: y, x2: x, y2: y, speed: 2, sprite_slot };
    if 1 <= ai <= 3 {
        Enemy { x2: two_further(x, 14), ..base }
    } else if 7 <= ai <= 10 {
        Enemy { x1: one_back(x), x2: two_further(x, 14), y1: one_back(y), y2: two_further(y, 9), ..base }
    } else if ai == 5 || ai == 6 {
        Enemy { x1: 0, x2: 0, y1: 0, y2: 0, ..base }
    } else if ai == 4 {
        if is_top_down { base } else { Enemy { y2: two_further(y, 9), ..base } }
    } else {
        Enemy { x2: two_further(x, 14), y2: y, ..base }
    }
}

/// Builds the enemy that a click at `(x, y)` spawns.
pub fn new_enemy(x: u8, y: u8, default_ai: u8, sprite_slot: u8, is_top_down: bool, id: u64) -> (r: Enemy)
    ensures
        r == spawned_enemy(x, y, spawn_ai(default_ai, sprite_slot), sprite_slot, is_top_down, id),
{
    let ai: u8 = if default_ai == 1 {
        match sprite_slot {
            0 => 1,
            1 => 6,
            2 => 9,
            3 => 4,
            _ => 1,
        }
    } else {
        default_ai
    };
    let mut e = Enemy { id, type_id: ai, x, y, x1: x, y1: y, x2: x, y2: y, speed: 2, sprite_slot };
    if 1 <= ai && ai <= 3 {
        e.x2 = step_two_further(x, 14);
    } else if 7 <= ai && ai <= 10 {
        e.x1 = step_one_back(x);
        e.x2 = step_two_further(x, 14);
        e.y1 = step_one_back(y);
        e.y2 = step_two_further(y, 9);
    } else if ai == 5 || ai == 6 {
        e.x1 = 0;
        e.x2 = 0;
        e.y1 = 0;
        e.y2 = 0;
    } else if ai == 4 {
        if !is_top_down {
            e.y2 = step_two_further(y, 9);
        }
    } else {
        e.x2 = step_two_further(x, 14);
        e.y2 = y;
    }
    e
}

/// The enemy list after a spawn click at `(x, y)` that creates `e`: nothing
/// happens when a live enemy already starts there; otherwise `e` takes the
/// first free slot, or is appended while fewer than three enemies exist.
pub open spec fn spawned_into(s: Seq<Enemy>, x: u8, y: u8, e: Enemy) -> Seq<Enemy> {
    if live_enemy_at(s, x, y) is Some {
        s
    } else {
        match free_slot(s) {
            Some(i) => s.update(i, e),
            None => if s.len() < 3 { s.push(e) } else { s },
        }
    }
}

/// Spawns an enemy by a click at `(x, y)` in enemy mode (see
/// `spawned_into` and `spawned_enemy`). Returns whether the screen changed.
pub fn place_enemy(
    screen: &mut ScreenData,
    x: u8,
    y: u8,
    default_ai: u8,
    sprite_slot: u8,
    is_top_down: bool,
    id: u64,
) -> (placed: bool)
    ensures
        final(screen).enemies@ == spawned_into(
            old(screen).enemies@,
            x,
            y,
            spawned_enemy(x, y, spawn_ai(default_ai, sprite_slot), sprite_slot, is_top_down, id),
        ),
        final(screen).tiles_matrix@ == old(screen).tiles_matrix@,
        final(screen).hotspot == old(screen).hotspot,
        placed == (live_enemy_at(old(screen).enemies@, x, y) is None && (free_slot(old(screen).enemies@) is Some
            || old(screen).enemies@.len() < 3)),
{
    if find_enemy_at(screen, x, y).is_some() {
        return false;
    }
    let e = new_enemy(x, y, default_ai, sprite_slot, is_top_down, id);
    proof {
        lemma_free_slot_from_props(screen.enemies@, 0);
    }
    match find_free_slot(&screen.enemies) {
        Some(i) => {
            screen.enemies.set(i, e);
            true
        },
        None => {
            if screen.enemies.len() < MAX_ENEMIES {
                screen.enemies.push(e);
                true
            } else {
                false
            }
        },
    }
}


/// No two live enemies of a list start at the same cell.
pub open spec fn live_starts_unique(s: Seq<Enemy>) -> bool {
    forall|i: int, j: int|
        0 <= i < s.len() && 0 <= j < s.len() && i != j && s[i].type_id != 0 && s[j].type_id != 0
            ==> !(s[i].x == s[j].x && s[i].y == s[j].y)
}

/// A spawn click never takes a screen above the engine's three enemies,
/// and never puts two live enemies on the same start cell.
pub proof fn lemma_spawn_keeps_screen_valid(s: Seq<Enemy>, x: u8, y: u8, e: Enemy)
    requires
        e.x == x,
        e.y == y,
    ensures
        s.len() <= 3 ==> spawned_into(s, x, y, e).len() <= 3,
        live_starts_unique(s) ==> live_starts_unique(spawned_into(s, x, y, e)),
{
    lemma_live_enemy_at_from_props(s, x, y, 0);
    lemma_free_slot_from_props(s, 0);
    let r = spawned_into(s, x, y, e);
    if live_starts_unique(s) && live_enemy_at(s, x, y) is None {
        assert forall|i: int, j: int|
            0 <= i < r.len() && 0 <= j < r.len() && i != j && r[i].type_id != 0 && r[j].type_id != 0
                implies !(r[i].x == r[j].x && r[i].y == r[j].y) by {
            if i < s.len() && j < s.len() && r[i] == s[i] && r[j] == s[j] {
            } else if i >= s.len() || r[i] != s[i] {
                assert(r[i] == e);
                assert(j < s.len() && r[j] == s[j]);
            } else {
                assert(r[j] == e);
            }
        }
    }
}

/// After a spawn click on a cell without a live enemy, where a slot is
/// free or the list is not full, the new enemy is the one found at the cell
/// (as long as its AI type is not 0).
pub proof fn lemma_spawn_then_find(s: Seq<Enemy>, x: u8, y: u8, e: Enemy)
    requires
        e.x == x,
        e.y == y,
        e.type_id != 0,
        live_enemy_at(s, x, y) is None,
        free_slot(s) is Some || s.len() < 3,
    ensures
        live_enemy_at(spawned_into(s, x, y, e), x, y) matches Some(i) && spawned_into(s, x, y, e)[i] == e,
{
    lemma_live_enemy_at_from_props(s, x, y, 0);
    lemma_free_slot_from_props(s, 0);
    let r = spawned_into(s, x, y, e);
    lemma_live_enemy_at_from_props(r, x, y, 0);
    match live_enemy_at(r, x, y) {
        Some(i) => {
            if r[i] != e {
                assert(i < s.len() && r[i] == s[i]);
            }
        },
        None => {
            match free_slot(s) {
                Some(k) => assert(r[k] == e),
                None => assert(r[s.len() as int] == e),
            }
        },
    }
}

/// The screen after the eraser is applied at `(x, y)`: a live enemy starting
/// there is switched off (its slot becomes free), otherwise the tile is
/// cleared to 0 as `placed_tile` does.
pub open spec fn erased_at(m: ScreenModel, x: u8, y: u8) -> ScreenModel {
    match live_enemy_at(m.enemies, x, y) {
        Some(i) => ScreenModel { enemies: m.enemies.update(i, Enemy { type_id: 0, ..m.enemies[i] }), ..m },
        None => placed_tile(m, x, y, 0),
    }
}

/// The eraser tool at `(x, y)`. Returns whether an enemy was erased (then the
/// inspector's selection is dropped).
pub fn erase_at(screen: &mut ScreenData, x: u8, y: u8, mode: TileMode) -> (erased_enemy: bool)
    ensures
        final(screen)@ == erased_at(old(screen)@, x, y),
        erased_enemy == (live_enemy_at(old(screen).enemies@, x, y) is Some),
{
    proof {
        lemma_live_enemy_at_from_props(screen.enemies@, x, y, 0);
    }
    match find_enemy_at(screen, x, y) {
        Some(i) => {
            let mut e = screen.enemies[i];
            e.type_id = 0;
            screen.enemies.set(i, e);
            assert(screen@ =~= erased_at(old(screen)@, x, y));
            true
        },
        None => {
            screen.set_tile_and_sync(x, y, 0, mode);
            false
        },
    }
}

/// A screen cell coordinate from a signed cell, clamped to `0..=max`.
pub open spec fn clamped_cell(v: i32, max: u8) -> u8 {
    if v < 0 { 0 } else if v > max as i32 { max } else { v as u8 }
}

fn clamp_cell(v: i32, max: u8) -> (r: u8)
    ensures
        r == clamped_cell(v, max),
{
    if v < 0 { 0 } else if v > max as i32 { max } else { v as u8 }
}

/// The bounds rule of the engine applied after an interactive edit: a live
/// enemy's first bound is its start cell, and ghosts (5, 6) have no bounds.
pub open spec fn sanitized(e: Enemy) -> Enemy {
    if e.type_id == 0 {
        e
    } else if e.type_id == 5 || e.type_id == 6 {
        Enemy { x1: 0, x2: 0, y1: 0, y2: 0, ..e }
    } else {
        Enemy { x1: e.x, y1: e.y, ..e }
    }
}

/// Applies the engine's bounds rule to an enemy (see `sanitized`).
pub fn sanitize_enemy_boundaries_interactive(enemy: &mut Enemy)
    ensures
        *final(enemy) == sanitized(*old(enemy)),
{
    if enemy.type_id == 0 {
        return;
    }
    enemy.x1 = enemy.x;
    enemy.y1 = enemy.y;
    let is_ghost = enemy.type_id == 5 || enemy.type_id == 6;
    if is_ghost {
        enemy.x1 = 0;
        enemy.x2 = 0;
        enemy.y1 = 0;
        enemy.y2 = 0;
    }
}

/// The bounds rule is idempotent, and leaves ghosts without bounds and other
/// live enemies starting on their first bound.
pub proof fn lemma_sanitized_shape(e: Enemy)
    ensures
        sanitized(sanitized(e)) == sanitized(e),
        (e.type_id == 5 || e.type_id == 6) ==> {
            let s = sanitized(e);
            s.x1 == 0 && s.x2 == 0 && s.y1 == 0 && s.y2 == 0
        },
        (e.type_id != 0 && e.type_id != 5 && e.type_id != 6) ==> sanitized(e).x1 == e.x && sanitized(e).y1
            == e.y,
        sanitized(e).type_id == e.type_id && sanitized(e).x == e.x && sanitized(e).y == e.y,
{
}

/// Handle 0 is the enemy's body, handle 2 the far corner of its patrol.
pub open spec fn dragged(e: Enemy, handle: u8, cx: u8, cy: u8) -> Enemy {
    let moved = if handle == 0 {
        Enemy { x: cx, y: cy, x1: cx, y1: cy, ..e }
    } else if handle == 2 {
        Enemy { x2: cx, y2: cy, ..e }
    } else {
        e
    };
    sanitized(moved)
}

/// Drags handle `handle` of enemy `idx` to the cell under the mouse, given
/// as signed cell coordinates and clamped to the screen (0..=14, 0..=9).
/// Free slots and indices past the list are left alone.
pub fn drag_enemy(screen: &mut ScreenData, idx: usize, handle: u8, cell_x: i32, cell_y: i32)
    ensures
        final(screen).tiles_matrix@ == old(screen).tiles_matrix@,
        final(screen).hotspot == old(screen).hotspot,
        final(screen).enemies@ == (if idx < old(screen).enemies@.len() && old(screen).enemies@[idx as int].type_id
            != 0 {
            old(screen).enemies@.update(
                idx as int,
                dragged(old(screen).enemies@[idx as int], handle, clamped_cell(cell_x, 14), clamped_cell(cell_y, 9)),
            )
        } else {
            old(screen).enemies@
        }),
{
    if idx >= screen.enemies.len() {
        return;
    }
    let mut e = screen.enemies[idx];
    if e.type_id == 0 {
        return;
    }
    let cx = clamp_cell(cell_x, 14);
    let cy = clamp_cell(cell_y, 9);
    if handle == 0 {
        e.x = cx;
        e.y = cy;
        e.x1 = cx;
        e.y1 = cy;
    } else if handle == 2 {
        e.x2 = cx;
        e.y2 = cy;
    }
    sanitize_enemy_boundaries_interactive(&mut e);
    screen.enemies.set(idx, e);
}

/// An enemy after the inspector switches it to AI `new_ai`: choosing its
/// current AI changes nothing; otherwise the type changes and the patrol
/// bounds are reset to the default shape of the new AI (types 1, 2, 3, 4,
/// 6 and 9 have one; other types keep their bounds).
pub open spec fn retyped(e: Enemy, new_ai: u8, is_top_down: bool) -> Enemy {
    if new_ai == e.type_id {
        e
    } else {
        let t = Enemy { type_id: new_ai, ..e };
        if new_ai == 1 {
            Enemy { x1: e.x, x2: two_further(e.x, 14), y1: e.y, y2: e.y, ..t }
        } else if new_ai == 2 {
            Enemy { x1: e.x, x2: e.x, y1: e.y, y2: two_further(e.y, 9), ..t }
        } else if new_ai == 3 {
            Enemy { x1: e.x, x2: two_further(e.x, 14), y1: e.y, y2: two_further(e.y, 9), ..t }
        } else if new_ai == 4 {
            if is_top_down {
                Enemy { x1: 0, x2: 0, y1: 0, y2: 0, ..t }
            } else {
                Enemy { x1: e.x, x2: e.x, y1: e.y, y2: two_further(e.y, 9), ..t }
            }
        } else if new_ai == 6 {
            Enemy { x1: 0, x2: 0, y1: 0, y2: 0, ..t }
        } else if new_ai == 9 {
            Enemy { x1: one_back(e.x), x2: two_further(e.x, 14), y1: one_back(e.y), y2: two_further(e.y, 9), ..t }
        } else {
            t
        }
    }
}

/// Switches an enemy to another AI from the inspector (see `retyped`).
pub fn change_enemy_ai(enemy: &mut Enemy, new_ai: u8, is_top_down: bool)
    ensures
        *final(enemy) == retyped(*old(enemy), new_ai, is_top_down),
{
    if new_ai == enemy.type_id {
        return;
    }
    enemy.type_id = new_ai;
    if new_ai == 1 {
        enemy.x1 = enemy.x;
        enemy.x2 = step_two_further(enemy.x, 14);
        enemy.y1 = enemy.y;
        enemy.y2 = enemy.y;
    } else if new_ai == 2 {
        enemy.x1 = enemy.x;
        enemy.x2 = enemy.x;
        enemy.y1 = enemy.y;
        enemy.y2 = step_two_further(enemy.y, 9);
    } else if new_ai == 3 {
        enemy.x1 = enemy.x;
        enemy.x2 = step_two_further(enemy.x, 14);
        enemy.y1 = enemy.y;
        enemy.y2 = step_two_further(enemy.y, 9);
    } else if new_ai == 4 {
        if is_top_down {
            enemy.x1 = 0;
            enemy.x2 = 0;
            enemy.y1 = 0;
            enemy.y2 = 0;
        } else {
            enemy.x1 = enemy.x;
            enemy.x2 = enemy.x;
            enemy.y1 = enemy.y;
            enemy.y2 = step_two_further(enemy.y, 9);
        }
    } else if new_ai == 6 {
        enemy.x1 = 0;
        enemy.x2 = 0;
        enemy.y1 = 0;
        enemy.y2 = 0;
    } else if new_ai == 9 {
        enemy.x1 = step_one_back(enemy.x);
        enemy.x2 = step_two_further(enemy.x, 14);
        enemy.y1 = step_one_back(enemy.y);
        enemy.y2 = step_two_further(enemy.y, 9);
    }
}

/// The sprite (index in `sprites.png`) the enemy list shows for an AI type.
pub open spec fn ai_sprite(type_id: u8) -> u8 {
    if 5 <= type_id <= 6 {
        10
    } else if 7 <= type_id <= 10 {
        12
    } else if 11 <= type_id <= 14 {
        14
    } else {
        8
    }
}

/// Sprite shown for an AI type in the enemy list.
pub fn sprite_for_ai(type_id: u8) -> (r: u8)
    ensures
        r == ai_sprite(type_id),
{
    match type_id {
        1..=4 => 8,
        5 | 6 => 10,
        7..=10 => 12,
        11..=14 => 14,
        _ => 8,
    }
}

/// Sprite slot the canvas draws an enemy with: its own slot, or for slot 0
/// a slot chosen by AI (ghosts 1, wall walkers 2, others 0).
pub fn display_sprite_slot(enemy: &Enemy) -> (r: u8)
    ensures
        r == (if enemy.sprite_slot != 0 {
            enemy.sprite_slot
        } else if enemy.type_id == 5 || enemy.type_id == 6 {
            1u8
        } else if 7 <= enemy.type_id <= 10 {
            2u8
        } else {
            0u8
        }),
{
    if enemy.sprite_slot == 0 {
        match enemy.type_id {
            5 | 6 => 1,
            7..=10 => 2,
            _ => 0,
        }
    } else {
        enemy.sprite_slot
    }
}

/// Removes the enemy in slot `idx` (the inspector's delete button).
pub fn remove_enemy(screen: &mut ScreenData, idx: usize)
    requires
        idx < old(screen).enemies.len(),
    ensures
        final(screen).enemies@ == old(screen).enemies@.remove(idx as int),
        final(screen).tiles_matrix@ == old(screen).tiles_matrix@,
        final(screen).hotspot == old(screen).hotspot,
{
    screen.enemies.remove(idx);
}

/// Whether an enemy does not start at `(x, y)`.
pub open spec fn starts_elsewhere(e: Enemy, x: u8, y: u8) -> bool {
    e.x != x || e.y != y
}

/// Removes every enemy (live or not) that starts at `(x, y)`, keeping the
/// others in order.
pub fn remove_enemies_at(screen: &mut ScreenData, x: u8, y: u8)
    ensures
        final(screen).enemies@ == old(screen).enemies@.filter(|e: Enemy| starts_elsewhere(e, x, y)),
        final(screen).tiles_matrix@ == old(screen).tiles_matrix@,
        final(screen).hotspot == old(screen).hotspot,
{
    let ghost pred = |e: Enemy| starts_elsewhere(e, x, y);
    let mut kept: Vec<Enemy> = Vec::new();
    let mut i: usize = 0;
    while i < screen.enemies.len()
        invariant
            i <= screen.enemies.len(),
            screen.enemies@ == old(screen).enemies@,
            pred == (|e: Enemy| starts_elsewhere(e, x, y)),
            kept@ == screen.enemies@.take(i as int).filter(pred),
        decreases screen.enemies.len() - i,
    {
        let e = screen.enemies[i];
        proof {
            reveal_with_fuel(Seq::filter, 1);
            let t = screen.enemies@.take(i + 1);
            assert(t.drop_last() =~= screen.enemies@.take(i as int));
            assert(t.last() == e);
            assert(pred(e) == (e.x != x || e.y != y));
        }
        if e.x != x || e.y != y {
            kept.push(e);
        }
        i += 1;
    }
    assert(screen.enemies@.take(i as int) =~= screen.enemies@);
    screen.enemies = kept;
}

/// Whether two screens of a map `map_w` screens wide touch each other (also
/// diagonally), or are the same screen.
pub open spec fn screens_adjacent(a: usize, b: usize, map_w: usize) -> bool {
    let (ac, ar, bc, br) = ((a % map_w) as int, (a / map_w) as int, (b % map_w) as int, (b / map_w) as int);
    -1 <= ac - bc <= 1 && -1 <= ar - br <= 1
}

/// A click on screen `clicked` makes it the selected screen. Returns whether
/// the view must be re-centred on it, which is the case when the new screen
/// does not touch the previous one.
pub fn select_screen(selected: &mut usize, clicked: usize, map_w: usize) -> (recenter: bool)
    requires
        map_w > 0,
    ensures
        *final(selected) == clicked,
        recenter == (*old(selected) != clicked && !screens_adjacent(*old(selected), clicked, map_w)),
{
    if *selected == clicked {
        return false;
    }
    let old_col = *selected % map_w;
    let old_row = *selected / map_w;
    let new_col = clicked % map_w;
    let new_row = clicked / map_w;
    let col_close = if old_col >= new_col { old_col - new_col <= 1 } else { new_col - old_col <= 1 };
    let row_close = if old_row >= new_row { old_row - new_row <= 1 } else { new_row - old_row <= 1 };
    *selected = clicked;
    !(col_close && row_close)
}


/// How the canvas draws an enemy's patrol.
#[derive(Clone, Copy, Debug, PartialEq, Eq, Structural)]
pub enum PatrolShape {
    /// No bounds at all (a free-flying ghost): nothing to draw or drag.
    Free,
    /// A wall walker's box (types 9 and 10).
    QuadratorBox,
    /// A wanderer's box (types 11..=14).
    MarrulerBox,
    /// A line from the start cell to the far bound.
    Line,
}

/// The patrol shape of an enemy: no bounds make it free, then types 9 and
/// 10 draw a wall walker's box, 11..=14 a wanderer's box, and the rest a
/// line.
pub open spec fn spec_patrol_shape(e: Enemy) -> PatrolShape {
    if e.x1 == 0 && e.x2 == 0 && e.y1 == 0 && e.y2 == 0 {
        PatrolShape::Free
    } else if e.type_id == 9 || e.type_id == 10 {
        PatrolShape::QuadratorBox
    } else if 11 <= e.type_id <= 14 {
        PatrolShape::MarrulerBox
    } else {
        PatrolShape::Line
    }
}

/// The patrol shape the canvas draws for an enemy; the far-corner handle
/// can be dragged unless the shape is `Free`.
pub fn patrol_shape(e: &Enemy) -> (r: PatrolShape)
    ensures
        r == spec_patrol_shape(*e),
{
    if e.x1 == 0 && e.x2 == 0 && e.y1 == 0 && e.y2 == 0 {
        PatrolShape::Free
    } else if e.type_id == 9 || e.type_id == 10 {
        PatrolShape::QuadratorBox
    } else if e.type_id >= 11 && e.type_id <= 14 {
        PatrolShape::MarrulerBox
    } else {
        PatrolShape::Line
    }
}

/// Label of an enemy's sprite in the enemy list: sprite 14 is the moving
/// platform in a platformer; everything else is an enemy.
pub fn sprite_label(raw_sprite: u8, is_top_down: bool) -> (r: &'static str)
    ensures
        r@ == if raw_sprite == 14 && !is_top_down { "Движ. Платформа (Лифт)"@ } else { "Враг"@ },
{
    if raw_sprite == 14 && !is_top_down {
        "Движ. Платформа (Лифт)"
    } else {
        "Враг"
    }
}


/// On a screen where no two live enemies share a start cell, the eraser
/// leaves no live enemy at the erased cell, and the screen keeps that
/// property.
pub proof fn lemma_erase_clears_cell(m: ScreenModel, x: u8, y: u8)
    requires
        live_starts_unique(m.enemies),
    ensures
        live_enemy_at(erased_at(m, x, y).enemies, x, y) is None,
        live_starts_unique(erased_at(m, x, y).enemies),
        erased_at(m, x, y).enemies.len() == m.enemies.len(),
{
    lemma_live_enemy_at_from_props(m.enemies, x, y, 0);
    let r = erased_at(m, x, y).enemies;
    lemma_live_enemy_at_from_props(r, x, y, 0);
    match live_enemy_at(m.enemies, x, y) {
        Some(i) => {
            match live_enemy_at(r, x, y) {
                Some(j) => {
                    assert(j != i);
                    assert(r[j] == m.enemies[j]);
                },
                None => {},
            }
        },
        None => {
            match live_enemy_at(r, x, y) {
                Some(j) => {
                    assert(r[j] == m.enemies[j]);
                },
                None => {},
            }
        },
    }
}

/// `v + 2` kept on a line of cells `0..=max`.
pub open spec fn plus_two_capped(v: u8, max: u8) -> int {
    if v as int + 2 <= max as int { v as int + 2 } else { max as int }
}

/// `v - 1`, kept at 0 or above.
pub open spec fn minus_one_floored(v: u8) -> int {
    if v as int >= 1 { v as int - 1 } else { 0 }
}

/// The patrol shape an enemy gets when the inspector switches it to another
/// AI. Identity, start cell, speed and sprite never change, and the type
/// becomes the new AI. Type 1 patrols its row two cells to the right, type
/// 2 its column two cells down, type 3 both; type 4 patrols its column two
/// cells down in a platformer and has no bounds in a top-down game; the
/// Fanty ghost (6) has no bounds; the wall walker 9 patrols a box from one
/// cell up-left to two cells down-right; other types keep their bounds.
/// Choosing the enemy's current AI changes nothing. All on a 15x10 screen.
pub proof fn lemma_retype_shapes(e: Enemy, new_ai: u8, is_top_down: bool)
    ensures
        new_ai == e.type_id ==> retyped(e, new_ai, is_top_down) == e,
        ({
            let r = retyped(e, new_ai, is_top_down);
            &&& r.type_id == new_ai
            &&& r.id == e.id && r.x == e.x && r.y == e.y && r.speed == e.speed && r.sprite_slot == e.sprite_slot
            &&& (new_ai == 1 && e.type_id != 1) ==> (r.x1 == e.x && r.x2 as int == plus_two_capped(e.x, 14)
                && r.y1 == e.y && r.y2 == e.y)
            &&& (new_ai == 2 && e.type_id != 2) ==> (r.x1 == e.x && r.x2 == e.x && r.y1 == e.y && r.y2 as int
                == plus_two_capped(e.y, 9))
            &&& (new_ai == 3 && e.type_id != 3) ==> (r.x1 == e.x && r.x2 as int == plus_two_capped(e.x, 14)
                && r.y1 == e.y && r.y2 as int == plus_two_capped(e.y, 9))
            &&& (new_ai == 4 && e.type_id != 4 && is_top_down) ==> (r.x1 == 0 && r.x2 == 0 && r.y1 == 0 && r.y2
                == 0)
            &&& (new_ai == 4 && e.type_id != 4 && !is_top_down) ==> (r.x1 == e.x && r.x2 == e.x && r.y1 == e.y
                && r.y2 as int == plus_two_capped(e.y, 9))
            &&& (new_ai == 6 && e.type_id != 6) ==> (r.x1 == 0 && r.x2 == 0 && r.y1 == 0 && r.y2 == 0)
            &&& (new_ai == 9 && e.type_id != 9) ==> (r.x1 as int == minus_one_floored(e.x) && r.x2 as int
                == plus_two_capped(e.x, 14) && r.y1 as int == minus_one_floored(e.y) && r.y2 as int
                == plus_two_capped(e.y, 9))
            &&& !(new_ai == 1 || new_ai == 2 || new_ai == 3 || new_ai == 4 || new_ai == 6 || new_ai == 9) ==> (r.x1
                == e.x1 && r.x2 == e.x2 && r.y1 == e.y1 && r.y2 == e.y2)
        }),
{
}

/// The enemy a spawn click creates starts at the clicked cell with speed 2,
/// the chosen sprite slot and the given id. Its AI is the palette's
/// default, except that default 1 follows the sprite slot (slot 1 spawns
/// the Fanty ghost 6, slot 2 the wall walker 9, slot 3 the platform /
/// pursuer 4). Ghosts (5, 6) have no patrol bounds at all; types 1..=3
/// patrol their row two cells to the right; wall walkers 7..=10 a box from
/// one cell up-left to two cells down-right; the platform (4) rides two
/// cells down in a platformer and stays put in a top-down game; any other
/// type patrols its row two cells to the right.
pub proof fn lemma_spawned_enemy_shape(x: u8, y: u8, default_ai: u8, sprite_slot: u8, is_top_down: bool, id: u64)
    ensures
        ({
            let ai = spawn_ai(default_ai, sprite_slot);
            let e = spawned_enemy(x, y, ai, sprite_slot, is_top_down, id);
            &&& default_ai != 1 ==> ai == default_ai
            &&& default_ai == 1 && sprite_slot == 1 ==> ai == 6
            &&& default_ai == 1 && sprite_slot == 2 ==> ai == 9
            &&& default_ai == 1 && sprite_slot == 3 ==> ai == 4
            &&& default_ai == 1 && !(1 <= sprite_slot <= 3) ==> ai == 1
            &&& e.type_id == ai && e.id == id && e.x == x && e.y == y && e.speed == 2 && e.sprite_slot == sprite_slot
            &&& (ai == 5 || ai == 6) ==> (e.x1 == 0 && e.x2 == 0 && e.y1 == 0 && e.y2 == 0)
            &&& (1 <= ai <= 3) ==> (e.x1 == x && e.x2 as int == plus_two_capped(x, 14) && e.y1 == y && e.y2 == y)
            &&& (7 <= ai <= 10) ==> (e.x1 as int == minus_one_floored(x) && e.x2 as int == plus_two_capped(x, 14)
                && e.y1 as int == minus_one_floored(y) && e.y2 as int == plus_two_capped(y, 9))
            &&& (ai == 4 && !is_top_down) ==> (e.x1 == x && e.x2 == x && e.y1 == y && e.y2 as int == plus_two_capped(
                y,
                9,
            ))
            &&& (ai == 4 && is_top_down) ==> (e.x1 == x && e.x2 == x && e.y1 == y && e.y2 == y)
            &&& (ai == 0 || ai > 10) ==> (e.x1 == x && e.x2 as int == plus_two_capped(x, 14) && e.y1 == y && e.y2
                == y)
        }),
{
}

/// Dragging an enemy. The body (handle 0) moves the enemy and the start of
/// its patrol to the cell and keeps the far corner; the far-corner handle
/// (2) moves only that corner, and the start of the patrol follows the
/// enemy's own cell; any other handle leaves the enemy as the bounds rule
/// makes it. A ghost (5, 6) keeps no bounds at all; the type, id, speed and
/// sprite never change.
pub proof fn lemma_drag_handles(e: Enemy, handle: u8, cx: u8, cy: u8)
    requires
        e.type_id != 0,
    ensures
        ({
            let r = dragged(e, handle, cx, cy);
            let ghost_ai = e.type_id == 5 || e.type_id == 6;
            &&& r.type_id == e.type_id && r.id == e.id && r.speed == e.speed && r.sprite_slot == e.sprite_slot
            &&& handle == 0 ==> r.x == cx && r.y == cy
            &&& handle == 0 && !ghost_ai ==> (r.x1 == cx && r.y1 == cy && r.x2 == e.x2 && r.y2 == e.y2)
            &&& handle == 2 ==> r.x == e.x && r.y == e.y
            &&& handle == 2 && !ghost_ai ==> (r.x1 == e.x && r.y1 == e.y && r.x2 == cx && r.y2 == cy)
            &&& handle != 0 && handle != 2 ==> r.x == e.x && r.y == e.y
            &&& handle != 0 && handle != 2 && !ghost_ai ==> (r.x1 == e.x && r.y1 == e.y && r.x2 == e.x2 && r.y2
                == e.y2)
            &&& ghost_ai ==> (r.x1 == 0 && r.x2 == 0 && r.y1 == 0 && r.y2 == 0)
        }),
{
}

/// The drag target cell is kept on the 15x10 screen: a coordinate already
/// on it is kept, one below 0 becomes 0 and one past the edge the edge.
pub proof fn lemma_clamped_cell(v: i32, max: u8)
    ensures
        clamped_cell(v, max) <= max,
        0 <= v <= max ==> clamped_cell(v, max) as int == v as int,
        v < 0 ==> clamped_cell(v, max) == 0,
        v > max ==> clamped_cell(v, max) == max,
{
}

} // verus!
