//! Live document statistics and a small automatic edit for a hosted text view.
//!
//! The crate keeps word, line and character counts for an open document and
//! computes the one corrective edit the component performs: uppercasing the
//! word that precedes a freshly typed `"!"`. All offsets and sizes are
//! measured in Unicode scalar values (`char`s); the host adapter converts to
//! and from its own unit at the boundary.

mod stats;
mod tokenizer;
mod transform;

pub use stats::HostError;
pub use stats::Session;
pub use stats::StatsAccumulator;
pub use stats::StatusMode;
pub use stats::WordCountState;
pub use stats::count_characters;
pub use stats::count_lines;
pub use tokenizer::count_words;
pub use transform::DeltaRegion;
pub use transform::Edit;
pub use transform::EditDelta;
pub use transform::capitalize_edit;
pub use transform::triggers_transform;
