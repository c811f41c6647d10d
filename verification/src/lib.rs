//! Native-side boundary layer of a source-text parser.
//!
//! The library turns text into a syntax tree through an outside parsing
//! engine and hands the tree across a runtime boundary as cheaply as
//! possible: a bump arena that can be built over caller-supplied memory,
//! a large specially-aligned buffer whose addresses truncate losslessly
//! to 32-bit offsets, and the protocol that writes source, parses in
//! place, and returns only a small offset.
//!
//! A structural schema of the engine's node types is not provided here:
//! it is a pure function of the engine's compiled type definitions,
//! reachable only through the engine's own introspection machinery.

pub mod arena;
pub mod layout;
pub mod parse;
pub mod react;
pub mod search;
