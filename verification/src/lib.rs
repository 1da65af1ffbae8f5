//! Motion-triggered recording: a background model that scores each video
//! frame for motion, a hysteresis controller that decides when a recording
//! starts and stops, and the state machine of the actor that owns the
//! recording sink.

pub mod background;
pub mod controller;
pub mod frame;
pub mod recorder;
