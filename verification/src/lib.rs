//! A character-grid menu front-end for a collection of games.
//!
//! The screen is a tree of widgets over a read-only library: a carousel of
//! systems, the list of the selected system's games, and the details of the
//! selected game, composed by split panels. Keys and gamepad buttons become
//! commands with press, hold and auto-repeat timing; the widgets answer
//! with events that keep them in step. What the widgets draw is laid out on
//! a grid of text cells, turned into exact pixel geometry, and composited
//! glyph sample by glyph sample.
//!
//! Windows, fonts, pictures and directories are the caller's: the library
//! takes plain values and hands plain values back.

pub mod app;
pub mod commands;
pub mod geometry;
pub mod models;
pub mod raster;
pub mod renderer;
pub mod storage;
pub mod text;
pub mod tui;
pub mod ui;
pub mod widgets;
