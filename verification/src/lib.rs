//! A fixed-size worker pool, verified at the level of its lifecycle and
//! coordination logic.
//!
//! A pool owns a fixed set of workers and the sending half of a shared job
//! queue. Workers repeatedly take one job from the queue and run it; a shared
//! shutdown flag tells them to stop. This crate verifies that logic over a
//! model of the pool's state: which jobs are queued, which have executed, and
//! which workers are still running. The surrounding program performs the
//! actions the model decides on (spawning threads, sending on the channel,
//! joining) and reports the outcomes back.

pub mod laws;
pub mod pool;
