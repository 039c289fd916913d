//! Host-side bookkeeping for a GPU rendering layer: per-queue submission
//! planning with fence epochs, and a cache of shared sampler handles keyed by
//! their creation parameters.
//!
//! Native objects (command buffers, semaphores, fences) are named by the index
//! they have in the arena of whoever owns them; this crate never touches the
//! device itself.

pub mod cache;
pub mod fence;
pub mod id;
pub mod queue;
pub mod sampler;
pub mod submission;
