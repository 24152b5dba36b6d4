//! View models for two small themed windows: what each window shows is decided
//! here, on plain values, and drawing it is left to the program that links a
//! windowing toolkit.

pub mod color;
pub mod context_extension;
pub mod hide_titlebar;
