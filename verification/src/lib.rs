//! A prompt composition library: styled text segments are accumulated into a
//! left- and an optional right-aligned buffer, separated by directional
//! glyphs, and rendered as a single shell prompt line.  A companion collector
//! derives a structured summary of a version-control working tree.

pub mod colors;
pub mod config;
pub mod modules;
pub mod powerline;
pub mod terminal;
pub mod text;
pub mod themes;

mod probes;

pub use crate::colors::Color;
pub use crate::powerline::{Powerline, Style};
