//! A window that asks for the user's attention by flashing its taskbar entry.
//!
//! The library holds the decisions: which input events trigger a flash, how the
//! window's lifecycle moves, what native flash request is built, and how an icon
//! image is decoded and validated. The event loop, the window and the native
//! call live with the program that drives the library.
pub mod geometry;
pub mod input;
pub mod attention;
pub mod host;
pub mod icon;
