//! Core logic of a snake game played on the six grid faces of a cube.
//!
//! The library covers the parts of the game that make decisions: the
//! edge-crossing topology that stitches the six faces into a cube, the
//! projection from a grid cell to a point on the cube, the camera rotation
//! animator with its shortest-path tie-breaking, the snake simulation and
//! the game state machine.  Rendering, input decoding and timers live
//! outside; they feed plain values (timestamps, pixel deltas, random draws)
//! into the functions here and read the resulting state.
//!
//! Angles are carried as hundredths of a degree in `i64`, so that all
//! rotation arithmetic is exact; 3D points are carried scaled by twice the
//! grid size, which makes the cell-centre projection exact as well.

pub mod canvas;
pub mod control;
pub mod cube;
pub mod degrees;
pub mod game;
pub mod models;
pub mod ranges;
pub mod rotation;
pub mod snake;
