//! Foundations of a software renderer: colors and a bounds-checked pixel canvas.
//!
//! Everything here works on integers, so every function is verified. Channel
//! values are carried as the bit patterns of single-precision numbers; the
//! arithmetic on them is done by the code that uses this library.

pub mod rendering;
pub mod text;
