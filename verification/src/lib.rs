//! Automatic numbering and cross-reference anchors for figures.
//!
//! A `Counter` records `Step`/`SetTo` updates in document order and reports,
//! for any document position, the per-level value vector obtained by
//! replaying its history. A `Numbering` turns such a vector into display
//! text through a parsed pattern of per-level counting symbols. A figure
//! composes a stepped, displayed number with a supplement (for example a
//! localized "Figure" label) and an optional caption into the final
//! centered, non-breakable block handed on to layout.

pub mod anchor;
pub mod content;
pub mod counter;
pub mod figure;
pub mod lang;
pub mod numbering;
pub mod styles;
pub mod supplement;
pub mod text;
