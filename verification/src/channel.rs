//! The hardware channel mixer, seen from this subsystem's side.
//!
//! A channel is one lane of the mixer, playing one queued buffer sequence at
//! a time. This subsystem only ever asks a channel for two things: a sequence
//! id for a freshly accepted descriptor, and a forced dequeue (`clear`) on
//! teardown of an in-flight handle. Every `clear` call is recorded, in order,
//! so the safe-teardown rule can be stated and checked exactly.

use vstd::prelude::*;

verus! {

/// The next sequence id the mixer will hand out: ids wrap around but skip 0,
/// which marks a descriptor that was never submitted.
pub open spec fn seq_next(s: u16) -> u16 {
    if s == 0xffff {
        1
    } else {
        (s + 1) as u16
    }
}

/// The channel mixer interface: assigns sequence ids to accepted descriptors
/// and records every forced dequeue (`clear`) call, oldest first.
pub struct ChannelSystem {
    clear_calls: Vec<u8>,
    next_seq: u16,
}

impl ChannelSystem {
    /// The channel ids passed to `clear` so far, oldest first.
    pub closed spec fn spec_clears(&self) -> Seq<u8> {
        self.clear_calls@
    }

    /// The sequence id the next accepted descriptor will get.
    pub closed spec fn spec_next_seq(&self) -> u16 {
        self.next_seq
    }

    /// A fresh mixer: no clear call yet; the first sequence id is 1.
    pub fn new() -> (r: ChannelSystem)
        ensures
            r.spec_clears() == Seq::<u8>::empty(),
            r.spec_next_seq() == 1,
    {
        ChannelSystem { clear_calls: Vec::new(), next_seq: 1 }
    }

    /// Forcibly dequeue whatever is active on `channel_id`. Fire-and-forget:
    /// the only confirmation is a later status read returning Free.
    pub fn clear(&mut self, channel_id: u8)
        ensures
            final(self).spec_clears() == old(self).spec_clears().push(channel_id),
            final(self).spec_next_seq() == old(self).spec_next_seq(),
    {
        self.clear_calls.push(channel_id);
    }

    /// Hand out the sequence id for a newly accepted descriptor.
    pub(crate) fn next_sequence(&mut self) -> (r: u16)
        ensures
            r == old(self).spec_next_seq(),
            final(self).spec_next_seq() == seq_next(old(self).spec_next_seq()),
            final(self).spec_clears() == old(self).spec_clears(),
    {
        let r: u16 = self.next_seq;
        if self.next_seq == 0xffff {
            self.next_seq = 1;
        } else {
            self.next_seq = self.next_seq + 1;
        }
        r
    }

    /// How many clear calls were made.
    pub fn clear_count(&self) -> (r: usize)
        ensures
            r == self.spec_clears().len(),
    {
        self.clear_calls.len()
    }

    /// The channel id of the `i`-th clear call, oldest first.
    pub fn clear_at(&self, i: usize) -> (r: u8)
        requires
            i < self.spec_clears().len(),
        ensures
            r == self.spec_clears()[i as int],
    {
        self.clear_calls[i]
    }
}

} // verus!
