//! Colour recognition for an editor highlighter: which spans of a line name a
//! colour, which colour they name, and the names under which that colour is
//! registered with the editor.

pub mod hex;
pub mod text;
pub mod named;
pub mod matching;
pub mod units;
pub mod vars;
pub mod patterns;
pub mod steps;
pub mod marks;
pub mod scan;
pub mod resolve;
pub mod names;
pub mod laws;
