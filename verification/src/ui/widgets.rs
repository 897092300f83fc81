//! The widgets: what every widget can do, the three leaf widgets, and the
//! split panel that composes them into a screen.

pub mod carousel;
pub mod common;
pub mod game;
pub mod list;
pub mod panel;
pub mod scroll;

pub use carousel::CarouselWidget;
pub use game::GameWidget;
pub use list::ListWidget;
