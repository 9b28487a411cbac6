//! Renders a sequence of loudness magnitudes as a two-toned waveform of text
//! lines, one glyph per cell of a character grid.

pub mod charset;
pub mod classify;
pub mod dyadic;
pub mod fullness;
pub mod laws;
pub mod magnitude;
pub mod render;
pub mod window;
