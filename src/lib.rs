//! A counter driven by a repeating timer, and the six points that are drawn
//! from it along a sine path.
//!
//! The library holds the state, the reducer and the geometry of the picture;
//! the host runs the timer and draws.

pub mod model;
pub mod scene;
pub mod session;
