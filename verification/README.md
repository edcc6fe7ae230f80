# churrera_studio

The data model and editing rules of a level editor for the La Churrera
(MTE MK1) game engine of the ZX Spectrum, written in Verus. The library's
functions carry `requires` / `ensures` contracts that Verus proves; the
few trusted items that reach outside (the `image` decoder and the wall
clock) say in their doc comments what is assumed of them, and the clock
reading itself is left unstated.

## Layout

- `src/` — the verified library.
  - `screen`, `project`: screens of 15x10 tiles with their enemies and
    hotspot, the tile modes, and the project as a whole.
  - `map_edit`: placing, dragging, retyping and erasing enemies, and the
    choice of the active screen.
  - `hud_layout`: the HUD indicators and the game viewport on the 32x24
    character screen.
  - `font`: the 8x8 project font, pixel editing and import from `font.png`
    (decoded with the `image` crate).
  - `tile_physics`, `enemy_ai`, `palette`, `config/*`: tile behaviours,
    enemy AI types, the tile palette and the engine settings with their
    defaults.
  - `tree`, `snippets`, `ide`, `screen_key`, `text`: the project tree,
    script snippets, the build report, stored screen keys and string
    helpers.
  - `clock`: the wall clock, for enemy identifiers.
- `tests/` — tests of the library on concrete values.
- `app/` — unverified helpers for a desktop front end: file dialogs
  (`rfd`), disk access, running the build command, and `serde` copies of
  the project types. It holds no user interface.

The laws of the library (read-back, idempotence, round trips, invariants
kept by every edit) are public proof functions named `lemma_*`.
