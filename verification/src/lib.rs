//! State models for a terminal file-browser's navigation layer.
//!
//! Two independent components: a list-navigation cursor (`Num`), which
//! tracks a selected row index and a scroll offset for a scrollable list,
//! and a command-line text cursor (`LineCursor`), which maps a logical
//! character position to a terminal column using per-character display
//! widths.

pub mod nums;
pub mod term;
