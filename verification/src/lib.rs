//! Simulation core of a two-player Pong match.
//!
//! The crate owns the whole per-tick state machine: paddle motion under
//! input and bounds constraints, ball motion under velocity, collision
//! resolution against paddles and walls, the periodic speed-up of the ball,
//! point-scoring detection with ball/paddle reset, and the score events
//! handed to whoever displays them.  Rendering, asset loading and window
//! plumbing belong to the host; the host feeds the core an elapsed time,
//! the pressed state of the configured keys and, on a score, a fresh start
//! velocity, and reads positions and score events back.
//!
//! All coordinates are fixed-point integers: positions and sizes in
//! subunits ([`units::UNIT`] subunits per world unit), time in milliseconds,
//! velocities in subunits per millisecond.

pub mod geom;
pub mod input;
pub mod options;
pub mod physics;
pub mod scoring;
pub mod state;
pub mod tick;
pub mod timer;
pub mod units;
