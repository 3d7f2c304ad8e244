//! Game rules of a 2D action platformer where health is the currency:
//! damage and rewards, items bought with health, per-level statistics,
//! campaign and level progression with best times, savefile framing,
//! the resolution file format and the menu decisions.

pub mod solid_tag;
pub mod settings;
pub mod health;
pub mod player;
pub mod enemy;
pub mod text;
pub mod item;
pub mod keyed;
pub mod stats;
pub mod time;
pub mod savefile;
pub mod level_manager;
pub mod campaign;
pub mod states;
pub mod decimal;
pub mod resolution;
pub mod animation;
pub mod components;
pub mod paths;
pub mod animation_tables;
pub mod json_doc;
pub mod level_objects;
pub mod menu;
pub mod timers;
pub mod report;
