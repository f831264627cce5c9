//! The frame-presentation core of a real-time GPU renderer, written without any
//! device access of its own.
//!
//! The crate owns the decisions of presentation: which extent and how many
//! images a swap chain is asked for, in which order a chain, its views and the
//! per-frame synchronisation objects are created and destroyed, and how one
//! frame moves through wait, acquire, record, submit and present. Every device
//! call is handed out as a [`device::Command`]; the caller performs it and
//! hands back a [`device::Reply`]:
//!
//! ```text
//! let mut step = renderer.tick(window_extent);
//! while let Ok(Tick::Run(command)) = step {
//!     step = renderer.resume(device.execute(command));
//! }
//! ```
//!
//! Each component comes with a mathematical model, its view, and is specified
//! by the transition function of that model. What holds of every run (never
//! more frames in flight than frame slots, one view for each image, nothing
//! destroyed while a frame is in flight, a frame slot index that moves on once
//! for each frame) is proved of the models, next to them.
//!
//! - [`surface`]: what a surface supports, and what is chosen of it
//! - [`base`]: the swap chain manager
//! - [`data`]: the frame slots and the framebuffers
//! - [`renderer`]: the frame orchestrator
//! - [`batch`], [`resources`]: creation of several objects that ends with all
//!   of them or with none

pub mod base;
pub mod batch;
pub mod convert;
pub mod data;
pub mod device;
pub mod extent;
pub mod index;
pub mod message;
pub mod renderer;
pub mod resources;
pub mod surface;
pub mod utils;
