//! Layout and scrolling engine for transient floating panels in a terminal
//! user interface.
//!
//! The crate positions a popup relative to an anchor cell inside a bounded
//! character-cell viewport, keeps a dual-granularity scroll cursor in a
//! canonical form, computes and paints a proportional scrollbar, routes input
//! events, and exposes a small shared-progress signal for spinner-style
//! indicators.

pub mod content;
pub mod geometry;
pub mod peek;
pub mod placement;
pub mod popup;
pub mod scroll;
pub mod scrollbar;
pub mod spinner;
pub mod surface;
pub mod view;
