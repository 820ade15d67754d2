//! The logic behind a small "About System" window: a logo decoded from PNG
//! bytes, the operating system's identification joined into one line, the size
//! of the window that shows both, and the per-frame decisions of the shell that
//! paints them and closes when Escape is let go.
//!
//! Everything here works on plain values. The program around this library owns
//! the window, uploads the texture and delivers the input events.

pub mod identity;
pub mod input;
pub mod laws;
pub mod logo;
pub mod shell;
