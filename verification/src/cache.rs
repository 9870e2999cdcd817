//! Cache-coherency primitives, kept as an observable operation log.
//!
//! A flush forces CPU-cached writes out to memory so the hardware reader
//! observes them; an invalidate discards cached lines so a later CPU read
//! fetches fresh memory. Both primitives may fail at the hardware level, so
//! each call reports a result; a pending fault can be injected to exercise
//! those paths. Every call is recorded, in order, so that contracts (and
//! tests) can state exactly when the coherency discipline acted.

use vstd::prelude::*;
use crate::Error;

verus! {

/// Which coherency primitive was called.
#[derive(Clone, Copy, Debug, PartialEq, Eq, Structural)]
pub enum CacheOpKind {
    /// Write cached data out to memory.
    Flush,
    /// Discard cached copies of a memory region.
    Invalidate,
}

/// One recorded call of a coherency primitive on an address range.
#[derive(Clone, Copy, Debug, PartialEq, Eq, Structural)]
pub struct CacheOp {
    /// The primitive that was called.
    pub kind: CacheOpKind,
    /// Start address of the affected region.
    pub addr: u32,
    /// Length of the affected region in bytes.
    pub len: u32,
}

/// The cache-coherency interface: a log of every call made, in order, plus
/// one-shot fault switches that make the next call of a primitive report an
/// error (a rare hardware-level failure).
pub struct CacheContext {
    ops: Vec<CacheOp>,
    flush_fault: bool,
    invalidate_fault: bool,
}

impl View for CacheContext {
    type V = Seq<CacheOp>;

    /// Every call made so far, oldest first.
    closed spec fn view(&self) -> Seq<CacheOp> {
        self.ops@
    }
}

impl CacheContext {
    /// Whether the next flush call will report an error.
    pub closed spec fn spec_flush_fault(&self) -> bool {
        self.flush_fault
    }

    /// Whether the next invalidate call will report an error.
    pub closed spec fn spec_invalidate_fault(&self) -> bool {
        self.invalidate_fault
    }

    /// A fresh context: nothing called yet, no fault pending.
    pub fn new() -> (r: CacheContext)
        ensures
            r@ == Seq::<CacheOp>::empty(),
            !r.spec_flush_fault(),
            !r.spec_invalidate_fault(),
    {
        CacheContext { ops: Vec::new(), flush_fault: false, invalidate_fault: false }
    }

    /// Make the next flush call report an error.
    pub fn inject_flush_fault(&mut self)
        ensures
            final(self)@ == old(self)@,
            final(self).spec_flush_fault(),
            final(self).spec_invalidate_fault() == old(self).spec_invalidate_fault(),
    {
        self.flush_fault = true;
    }

    /// Make the next invalidate call report an error.
    pub fn inject_invalidate_fault(&mut self)
        ensures
            final(self)@ == old(self)@,
            final(self).spec_flush_fault() == old(self).spec_flush_fault(),
            final(self).spec_invalidate_fault(),
    {
        self.invalidate_fault = true;
    }

    /// Flush `len` bytes at `addr` out to memory. The call is always
    /// recorded; it fails exactly when a flush fault was pending.
    pub fn flush(&mut self, addr: u32, len: u32) -> (r: Result<(), Error>)
        ensures
            final(self)@ == old(self)@.push(CacheOp { kind: CacheOpKind::Flush, addr, len }),
            r.is_ok() <==> !old(self).spec_flush_fault(),
            r.is_err() ==> r == Err::<(), Error>(Error::CacheOperationFailure),
            !final(self).spec_flush_fault(),
            final(self).spec_invalidate_fault() == old(self).spec_invalidate_fault(),
    {
        self.ops.push(CacheOp { kind: CacheOpKind::Flush, addr, len });
        if self.flush_fault {
            self.flush_fault = false;
            Err(Error::CacheOperationFailure)
        } else {
            Ok(())
        }
    }

    /// Discard cached copies of `len` bytes at `addr`. The call is always
    /// recorded; it fails exactly when an invalidate fault was pending.
    pub fn invalidate(&mut self, addr: u32, len: u32) -> (r: Result<(), Error>)
        ensures
            final(self)@ == old(self)@.push(CacheOp { kind: CacheOpKind::Invalidate, addr, len }),
            r.is_ok() <==> !old(self).spec_invalidate_fault(),
            r.is_err() ==> r == Err::<(), Error>(Error::CacheOperationFailure),
            !final(self).spec_invalidate_fault(),
            final(self).spec_flush_fault() == old(self).spec_flush_fault(),
    {
        self.ops.push(CacheOp { kind: CacheOpKind::Invalidate, addr, len });
        if self.invalidate_fault {
            self.invalidate_fault = false;
            Err(Error::CacheOperationFailure)
        } else {
            Ok(())
        }
    }

    /// How many calls have been recorded.
    pub fn op_count(&self) -> (r: usize)
        ensures
            r == self@.len(),
    {
        self.ops.len()
    }

    /// The `i`-th recorded call, oldest first.
    pub fn op_at(&self, i: usize) -> (r: CacheOp)
        requires
            i < self@.len(),
        ensures
            r == self@[i as int],
    {
        self.ops[i]
    }
}

} // verus!
