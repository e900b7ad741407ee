//! An animated "eye" drawn in ASCII art.
//!
//! Each animation step fills a grid of glyphs from a closed-form brightness
//! function of the column, the row and the tick counter. The render loop's
//! decisions (when to redraw, when to stop) are a small state machine; the
//! terminal itself is driven from outside the library.

pub mod brightness;
pub mod frame;
pub mod animation;
