//! Measurement layer for mathematical typesetting: the data, query protocol and
//! aggregation rules that sit between a rasterization engine and a shaping engine.

pub mod encoding;
pub mod freetype;
pub mod harfbuzz;
