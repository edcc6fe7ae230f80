//! Data model and editing rules of a level editor for the La Churrera
//! (MTE MK1) ZX Spectrum game engine: screens of 15x10 tiles, enemies with
//! their patrol boxes, hotspots, tile behaviours, the project font and the
//! engine configuration blocks.

pub mod screen;
pub mod project;
pub mod enemy_ai;
pub mod tile_physics;
pub mod map_edit;
pub mod config;
pub mod font;
pub mod hud_layout;
pub mod palette;
pub mod clock;
pub mod tree;
pub mod text;
pub mod snippets;
pub mod ide;
pub mod screen_key;
