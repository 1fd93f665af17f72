//! The per-frame core of a small real-time simulation, in exact integer arithmetic.
//!
//! Bodies circle fixed anchors, two of them are recoloured while they overlap, and a
//! free-fly camera follows the keyboard. Each frame the host hands this crate the
//! elapsed time and the state it keeps, and gets back the new phase of every mover,
//! the colour of every collidable body and the motions of the camera.
//!
//! Every quantity is an integer in a unit of the host's choosing: lengths and radii
//! share one unit, and a speed multiplied by an elapsed time gives a displacement or
//! an angle in the product of their units. Trigonometry is left to the host.

pub mod camera;
pub mod motion;
pub mod proximity;
pub mod vector;
