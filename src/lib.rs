//! Angular-separation notation and terminal box layout.
//!
//! The library holds the text side of an astronomy calculator: it measures
//! styled terminal text by its visible width, frames lines in a box of
//! box-drawing glyphs, decides how an angle conversion request is read, and
//! composes the result and trace lines. The numeric work on angles is done by
//! the caller, which hands the numbers in as text.

pub mod ansi;
pub mod convert;
pub mod frame;
pub mod notation;

pub use ansi::{strip_ansi, visible_width};
pub use convert::{flag_enabled, plan_conversion, remove_pi, trim, ConversionPlan};
pub use frame::render;
pub use notation::{
    degrees_report, dms_line, emphasize, normalize_line, pi_radians_report, radians_line,
    separation_report, step_line, unsupported_report, TraceLog,
};
