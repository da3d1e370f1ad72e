//! A merchant trading game: terminal drawing commands, their text and HTML
//! renderings, and the rules of the game state, with their contracts.
pub mod style;
pub mod text;
pub mod commands;
pub mod render_raw;
pub mod html_text;
pub mod good;
pub mod location;
pub mod goods_map;
pub mod location_map;
pub mod events;
pub mod rng;
pub mod locations;
pub mod game_rng;
pub mod game_state;
pub mod debug_text;
pub mod game_laws;
pub mod keys;
pub mod engine;
pub mod html;
pub mod components;
pub mod captured_write;
pub mod screens;
pub mod panels;
pub mod prompts;
pub mod title_screens;
pub mod encounters;
pub mod scene;
pub mod ansi_format;
pub mod web_input;
