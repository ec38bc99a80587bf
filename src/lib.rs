//! Tilt-to-pixel engine of a bubble level on a 5x5 LED matrix.
//!
//! Each sampling tick resolves the precision mode from two buttons, decides
//! from the vertical axis whether the display renders or blanks, and maps the
//! two lateral axes to the one cell that is lit.
pub mod frame;
pub mod gate;
pub mod laws;
pub mod level;
pub mod mode;
pub mod quantizer;
