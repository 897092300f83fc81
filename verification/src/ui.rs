//! The user interface: the widgets that make up the screen.

pub mod widgets;
