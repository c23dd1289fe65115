//! Core of a terminal text viewer: cursor movement, viewport scrolling,
//! row clipping, and composition of the status and message bars.
//!
//! The library is pure: it works on plain values (character vectors,
//! indices, millisecond timestamps) and never touches the terminal
//! itself. A binary built on top of it owns the raw terminal, decodes
//! keys, and prints the lines this library composes.

pub mod document;
pub mod editor;
pub mod status;
pub mod text;
