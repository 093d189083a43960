//! Control core of a line-oriented board-game engine front-end.
//!
//! The crate holds the engine-independent logic of the driver: the TEI
//! protocol state machine, the time-budget allocation, the command
//! classification done by the background reader, and the interactive
//! proof-tree explorer's view state. Board representation, move legality
//! and the search itself are outside collaborators; the library speaks to
//! them through plain values (events in, actions out).

pub mod text;
pub mod clock;
pub mod protocol;
pub mod reader;
pub mod engine;
pub mod explorer;
pub mod cli;

use vstd::prelude::*;

verus! {

/// The side whose clock and reserves a command refers to.
#[derive(Clone, Copy, PartialEq, Eq, Structural, Debug)]
pub enum Color {
    White,
    Black,
}

} // verus!
