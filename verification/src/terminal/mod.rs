//! A terminal in memory: bytes in, a grid of styled characters out.
pub mod control;
pub mod laws;
pub mod params;
pub mod screen;
pub mod surface;
