//! Core model of a tile-grid snake game: grid coordinates, the segment chain,
//! and the movement / feeding state machine. Rendering and input polling live
//! outside the library; the core consumes plain input signals and elapsed time
//! each tick and exposes the positioned, oriented segment chain.

pub mod grid;
pub mod snake;
