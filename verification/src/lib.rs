//! Settings of the game application, kept apart from the engine that applies
//! them: the order of the update sets, the numbers of the camera rig and the
//! primary window.

pub mod camera;
pub mod schedule;
pub mod window;
