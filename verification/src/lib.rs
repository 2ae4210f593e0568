//! Hardware-control core of a laptop peripheral daemon.
//!
//! The crate identifies the machine model from its board identifier,
//! decides what a hotkey press means for the shared lighting state, and
//! lays lighting data out in the two USB reports that the matrix display
//! expects. Every function carries a contract that Verus proves.

pub mod anime;
pub mod action;
pub mod aura;
pub mod board;
pub mod gx502gw;
pub mod laptops;
