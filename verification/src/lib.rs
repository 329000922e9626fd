//! Text shaping orchestration and the font-metrics bridge between a
//! rasterization engine and a shaping engine.
//!
//! The engines themselves are native and live outside this library. It holds
//! what is decided around them: what each font query answers (`bridge`), when
//! a face has to be resized and with which flags a glyph is loaded (`face`,
//! `flags`, `size`), how the engine's status codes map to errors (`error`),
//! how a shaped segment becomes positioned glyphs (`glyph`, `geometry`), and
//! how text is cut into segments and gathered in a buffer over many calls
//! (`shaper`, `buffer`, `buffer_laws`, `text`).

pub mod bridge;
pub mod buffer;
pub mod buffer_laws;
pub mod error;
pub mod face;
pub mod flags;
pub mod geometry;
pub mod glyph;
pub mod shaper;
pub mod size;
pub mod text;
