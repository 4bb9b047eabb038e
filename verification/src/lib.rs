//! The discrete side of a wireframe viewer with a free-flying camera.
//!
//! A viewer of this kind reads the keyboard once per frame, moves and turns its
//! camera by what is held, and draws every box of the scene as twelve lines. What
//! of that is counting and deciding stands here, with its proofs:
//!
//! - [`control`] keeps one button per action and runs a frame of input events over
//!   them;
//! - [`motion`] turns the held buttons into the steps the camera takes in a tick;
//! - [`cube`] numbers the corners of a box and lists the edges between them.
//!
//! Lengths, angles and positions on the screen are left to the caller.

pub mod control;
pub mod cube;
pub mod motion;
