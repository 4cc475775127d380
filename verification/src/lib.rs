//! Position samples for the ball and the cars of a Rocket League replay.
//!
//! A decoded replay is a stream of frames. Each frame announces new actors
//! and carries attribute updates for actors that already exist. This crate
//! classifies actors by the name of their object type when they are created,
//! and turns every rigid-body update of a classified actor into a
//! [`sample::Sample`], in the order in which the updates arrive.
//!
//! - [`role`]: the two roles and the rule that reads a role off an object name.
//! - [`frame`]: the frames that the processor consumes.
//! - [`registry`]: which actor has which role.
//! - [`sample`]: samples and the collector that gathers them.
//! - [`processor`]: the model of the pipeline and the code that runs it.
//! - [`replay`]: frames and samples out of a replay file, decoded by `boxcars`.
//! - [`theorems`]: what holds of the pipeline, proved from its model.
//!
//! Times and coordinates are single-precision numbers that the pipeline only
//! copies. It carries them as bit patterns, see [`frame::Scalar`].

pub mod frame;
pub mod processor;
pub mod registry;
pub mod replay;
pub mod role;
pub mod sample;
pub mod theorems;
