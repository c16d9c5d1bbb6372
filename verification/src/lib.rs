//! A verified menu and text-rendering framework for a small 2D arcade game.
//!
//! The library owns the pure, invariant-bearing part of the game's menu
//! layer: bitmap-font glyph indexing, animated text widgets, menu
//! navigation, settings and high-score state.  Drawing is modelled as the
//! computation of blit commands; performing them on a real canvas, and the
//! window, event and file plumbing around them, are left to the embedding
//! program.

pub mod audio_menu;
pub mod credit_menu;
pub mod cycle;
pub mod decimal;
pub mod game;
pub mod gfx_menu;
pub mod high_score;
pub mod main_menu;
pub mod menu;
pub mod settings;
pub mod text_fx;
pub mod trig;
