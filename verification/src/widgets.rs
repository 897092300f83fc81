//! Stand-alone widgets that are placed by hand: a list over its own items,
//! and a detail panel that is told what to show.

pub mod list;
pub mod metadata;

pub use list::ListWidget;
pub use metadata::MetadataWidget;
