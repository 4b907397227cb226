//! Verified core of an AssaultCube overlay: decoding values read out of the
//! game's memory, the per-frame decisions about entities, memory patches and
//! drawing geometry, and the overlay's attachment status.
pub mod memory;
pub mod model;
pub mod modules;
pub mod offset;
pub mod overlay;
pub mod scan;
pub mod state;
pub mod text;
