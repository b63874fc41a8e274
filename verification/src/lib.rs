//! Core logic of a chess-piece relocation flow: a board that records which
//! piece occupies each square, and a selection state machine that turns
//! resolved pointer clicks into piece relocations.
//!
//! Rendering, asset handling and click picking are external collaborators:
//! they hand this library a resolved board coordinate (or none) per click and
//! read back piece positions and per-square highlight categories.

pub mod board;
pub mod laws;
pub mod selection;
