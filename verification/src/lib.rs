//! Decision core of a first-person fly camera.
//!
//! Every type here is made of integers and booleans, and every function is
//! verified. The host samples keys, mouse motion and the window once per
//! frame, asks this crate what to do, and carries the answer out on its own
//! vectors and quaternions.

pub mod capture;
pub mod keys;
pub mod look;
pub mod movement;
pub mod plugin;
