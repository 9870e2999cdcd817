//! Wave-buffer subsystem for an asynchronous hardware audio pipeline.
//!
//! The library models the ownership, cache-coherency and lifecycle discipline
//! needed to hand a CPU-visible memory block to an asynchronous hardware
//! consumer (a DSP-driven channel mixer) and reclaim it safely:
//!
//! - [`vram::VramAllocator`]: the fixed-capacity memory pool that sample
//!   buffers are built from, with alignment guarantees and free-space
//!   accounting.
//! - [`cache::CacheContext`]: the platform cache-coherency primitives
//!   (flush / invalidate), kept as an observable operation log so that the
//!   coherency discipline is part of every contract.
//! - [`wave::WaveBuffer`]: an owned, format-tagged sample-data block whose
//!   sample count is always derived from its length and format.
//! - [`wave::WaveInfo`]: the transient playback handle that mirrors the
//!   hardware-visible descriptor and enforces the safe-teardown rule.
//! - [`channel::ChannelSystem`]: the channel mixer that buffers are submitted
//!   to; it hands out sequence ids and records every forced dequeue.
//! - [`mii`]: the decision logic behind the Mii Selector applet interface.

use vstd::prelude::*;

pub mod cache;
pub mod channel;
pub mod format;
pub mod mii;
pub mod vram;
pub mod wave;

verus! {

/// Failures surfaced by this subsystem.
#[derive(Clone, Copy, Debug, PartialEq, Eq, Structural)]
pub enum Error {
    /// The memory pool could not satisfy an allocation request
    /// (exhausted, or the requested alignment is unsatisfiable).
    AllocationFailure,
    /// A cache flush or invalidate primitive reported an error.
    CacheOperationFailure,
    /// A status byte outside the four known states was observed:
    /// memory corruption or a hardware-contract mismatch, never recoverable.
    InvalidStatusEncoding,
}

} // verus!
