//! Random draws from a closed interval, with the bounds checked before the draw,
//! and the lifecycle stages of a channel.
//!
//! Single-precision bounds are handled as their IEEE 754 bit patterns (as given
//! by `to_bits`), so that every decision about them is verified integer logic.
pub mod float_bits;
pub mod sampler;
pub mod state;

pub use sampler::{plan_sample, SampleError, SamplePlan};
pub use state::{match_test, Stage, State, Unimplemented};
