//! Owned sample buffers and the transient playback handles built on them.
//!
//! A [`WaveBuffer`] owns a byte block carved from the memory pool, tagged
//! with its audio format; its sample count is always derived from the block
//! length and the format, never stored independently. The buffer is flushed
//! out of the CPU cache at construction (so the hardware sees committed data)
//! and invalidated at teardown (so no stale cache line survives the block's
//! reuse).
//!
//! A [`WaveInfo`] binds one buffer to one submission: it mirrors the
//! hardware-visible descriptor and remembers which channel it was submitted
//! on. Its caller-controlled fields are fixed at construction; the
//! hardware-owned fields (status, sequence id, link pointer) are only ever
//! read. Tearing down a handle that is still Queued or Playing first tells
//! the bound channel to clear it — otherwise the hardware would keep reading
//! memory that software is about to hand back.

use vstd::prelude::*;
use vstd::arithmetic::div_mod::{lemma_div_nonincreasing, lemma_fundamental_div_mod};
use crate::Error;
use crate::cache::{CacheContext, CacheOp, CacheOpKind};
use crate::channel::ChannelSystem;
use crate::format::AudioFormat;
use crate::vram::Block;

verus! {

/// The four-state buffer lifecycle, written by the hardware and only read by
/// software. Encoded on the wire as 0 = Free, 1 = Queued, 2 = Playing,
/// 3 = Done; no other value is valid.
#[derive(Clone, Copy, Debug, PartialEq, Eq, Structural)]
pub enum WaveStatus {
    /// Not held by the hardware.
    Free,
    /// Accepted into the hardware's pending list, not yet started.
    Queued,
    /// Actively being consumed by the mixer.
    Playing,
    /// The hardware will not touch the memory again until resubmitted.
    Done,
}

impl WaveStatus {
    /// The wire encoding of this state.
    pub open spec fn spec_code(self) -> u8 {
        match self {
            WaveStatus::Free => 0,
            WaveStatus::Queued => 1,
            WaveStatus::Playing => 2,
            WaveStatus::Done => 3,
        }
    }

    /// The state a valid status byte encodes.
    pub open spec fn spec_decode(v: u8) -> WaveStatus {
        if v == 0 {
            WaveStatus::Free
        } else if v == 1 {
            WaveStatus::Queued
        } else if v == 2 {
            WaveStatus::Playing
        } else {
            WaveStatus::Done
        }
    }

    /// The hardware-driven cycle: Free → Queued → Playing → Done → Free
    /// (the last step only on reuse, after the descriptor is reconstructed).
    pub open spec fn spec_next(self) -> WaveStatus {
        match self {
            WaveStatus::Free => WaveStatus::Queued,
            WaveStatus::Queued => WaveStatus::Playing,
            WaveStatus::Playing => WaveStatus::Done,
            WaveStatus::Done => WaveStatus::Free,
        }
    }

    /// The wire encoding of this state.
    pub fn code(&self) -> (r: u8)
        ensures
            r == self.spec_code(),
    {
        match self {
            WaveStatus::Free => 0,
            WaveStatus::Queued => 1,
            WaveStatus::Playing => 2,
            WaveStatus::Done => 3,
        }
    }

    /// Decode a raw status byte. Any value above 3 signals memory corruption
    /// or an incompatible hardware contract and is surfaced as a fatal
    /// [`Error::InvalidStatusEncoding`], never as a silently wrong state.
    pub fn try_from(value: u8) -> (r: Result<WaveStatus, Error>)
        ensures
            r.is_ok() <==> value <= 3,
            r.is_ok() ==> r.unwrap() == WaveStatus::spec_decode(value),
            value > 3 ==> r == Err::<WaveStatus, Error>(Error::InvalidStatusEncoding),
    {
        match value {
            0 => Ok(WaveStatus::Free),
            1 => Ok(WaveStatus::Queued),
            2 => Ok(WaveStatus::Playing),
            3 => Ok(WaveStatus::Done),
            _ => Err(Error::InvalidStatusEncoding),
        }
    }
}

/// The fixed-layout record handed to the hardware: where the sample data is
/// and how to play it. The first four fields are caller-controlled and fixed
/// at construction; status, sequence id and link pointer are hardware-owned
/// and never written by callers.
#[derive(Clone, Copy, Debug, PartialEq, Eq, Structural)]
pub struct WaveDescriptor {
    /// Address of the sample data inside the memory pool.
    pub data_addr: u32,
    /// How many sample frames the data holds.
    pub nsamples: u32,
    /// Playback start offset, in samples.
    pub offset: u32,
    /// Whether playback loops back to the start.
    pub looping: bool,
    /// Hardware-owned: the raw status byte (see [`WaveStatus`]).
    pub status: u8,
    /// Hardware-owned: id assigned when the descriptor was accepted; 0 means
    /// never submitted.
    pub sequence_id: u16,
    /// Hardware-owned: link to the next queued descriptor; 0 means none.
    pub next_addr: u32,
}

/// Audio wave data: an owned byte block from the memory pool plus its format,
/// with the sample count derived from the two.
pub struct WaveBuffer {
    data: Vec<u8>,
    base: u32,
    audio_format: AudioFormat,
    nsamples: usize,
}

impl WaveBuffer {
    /// The sample bytes.
    pub closed spec fn spec_data(&self) -> Seq<u8> {
        self.data@
    }

    /// Address of the data inside the memory pool.
    pub closed spec fn spec_base(&self) -> u32 {
        self.base
    }

    /// The buffer's audio format.
    pub closed spec fn spec_format(&self) -> AudioFormat {
        self.audio_format
    }

    /// The derived sample count.
    pub closed spec fn spec_nsamples(&self) -> usize {
        self.nsamples
    }

    /// The sample count is exactly the byte length over the frame size, and
    /// the block stays within the pool's address space.
    pub open spec fn wf(&self) -> bool {
        &&& self.spec_nsamples() as int == self.spec_data().len() as int
            / self.spec_format().spec_sample_size() as int
        &&& self.spec_base() + self.spec_data().len() <= u32::MAX
    }

    /// Wrap a pool block as sample data of the given format. The sample
    /// count is derived as the byte length over the format's frame size, and
    /// the memory is flushed out of the CPU cache so the hardware sees the
    /// committed data; a flush failure is surfaced, failing construction and
    /// handing the block back so it can still be returned to its pool.
    pub fn new(block: Block, audio_format: AudioFormat, cache: &mut CacheContext) -> (r: Result<
        WaveBuffer,
        (Error, Block),
    >)
        requires
            block.wf(),
        ensures
            final(cache)@ == old(cache)@.push(
                (CacheOp {
                    kind: CacheOpKind::Flush,
                    addr: block.spec_base(),
                    len: block.spec_size() as u32,
                }),
            ),
            r.is_ok() <==> !old(cache).spec_flush_fault(),
            !final(cache).spec_flush_fault(),
            final(cache).spec_invalidate_fault() == old(cache).spec_invalidate_fault(),
            r matches Err(p) ==> p.0 == Error::CacheOperationFailure && p.1 == block,
            r.is_ok() ==> r.unwrap().wf(),
            r.is_ok() ==> r.unwrap().spec_format() == audio_format,
            r.is_ok() ==> r.unwrap().spec_base() == block.spec_base(),
            r.is_ok() ==> r.unwrap().spec_data() == block.spec_bytes(),
            r.is_ok() ==> r.unwrap().spec_nsamples() as int == block.spec_size()
                / audio_format.spec_sample_size() as int,
    {
        let base: u32 = block.base();
        let len: usize = block.size();
        match cache.flush(base, len as u32) {
            Ok(()) => {
                let (base, data) = block.into_parts();
                let sample_size: u8 = audio_format.sample_size();
                let nsamples: usize = data.len() / (sample_size as usize);
                Ok(WaveBuffer { data, base, audio_format, nsamples })
            },
            Err(e) => Err((e, block)),
        }
    }

    /// Mutable view of the sample bytes, for rewriting sample contents. The
    /// length cannot change, so the derived sample count stays valid; after a
    /// rewrite meant for the hardware, the caller re-flushes (or uses
    /// [`WaveBuffer::rewrite_data`], which flushes itself).
    pub fn get_mut_data(&mut self) -> (r: &mut [u8])
        ensures
            r@ == old(self).spec_data(),
            final(self).spec_data() == final(r)@,
            final(self).spec_base() == old(self).spec_base(),
            final(self).spec_format() == old(self).spec_format(),
            final(self).spec_nsamples() == old(self).spec_nsamples(),
    {
        self.data.as_mut_slice()
    }

    /// Overwrite part of the sample data and flush the buffer out to memory,
    /// so the hardware cannot observe a stale cache line; a flush failure is
    /// surfaced, though the bytes are rewritten either way.
    pub fn rewrite_data(&mut self, offset: usize, src: &Vec<u8>, cache: &mut CacheContext) -> (r:
        Result<(), Error>)
        requires
            old(self).wf(),
            offset + src@.len() <= old(self).spec_data().len(),
        ensures
            final(self).wf(),
            final(self).spec_data() == old(self).spec_data().subrange(0, offset as int) + src@
                + old(self).spec_data().subrange(
                offset + src@.len(),
                old(self).spec_data().len() as int,
            ),
            final(self).spec_base() == old(self).spec_base(),
            final(self).spec_format() == old(self).spec_format(),
            final(self).spec_nsamples() == old(self).spec_nsamples(),
            final(cache)@ == old(cache)@.push(
                (CacheOp {
                    kind: CacheOpKind::Flush,
                    addr: old(self).spec_base(),
                    len: old(self).spec_data().len() as u32,
                }),
            ),
            r.is_ok() <==> !old(cache).spec_flush_fault(),
            r.is_err() ==> r == Err::<(), Error>(Error::CacheOperationFailure),
    {
        let ghost orig = self.data@;
        let total: usize = self.data.len();
        let mut i: usize = 0;
        while i < src.len()
            invariant
                i <= src@.len(),
                offset + src@.len() <= orig.len(),
                orig.len() == total,
                self.data@.len() == orig.len(),
                forall|j: int|
                    0 <= j < orig.len() && !(offset <= j < offset + i) ==> self.data@[j] == orig[j],
                forall|j: int| 0 <= j < i ==> self.data@[offset + j] == src@[j],
                self.base == old(self).base,
                self.audio_format == old(self).audio_format,
                self.nsamples == old(self).nsamples,
                src@.len() <= orig.len(),
            decreases src@.len() - i,
        {
            let b = src[i];
            *vstd::std_specs::vec::vec_index_mut(&mut self.data, offset + i) = b;
            i += 1;
        }
        proof {
            assert(self.data@ =~= orig.subrange(0, offset as int) + src@ + orig.subrange(
                offset + src@.len(),
                orig.len() as int,
            ));
        }
        cache.flush(self.base, self.data.len() as u32)
    }

    /// The buffer's audio format.
    pub fn get_format(&self) -> (r: AudioFormat)
        ensures
            r == self.spec_format(),
    {
        self.audio_format
    }

    /// The derived sample count: byte length over the format's frame size.
    pub fn get_sample_amount(&self) -> (r: usize)
        ensures
            r == self.spec_nsamples(),
    {
        self.nsamples
    }

    /// Tear the buffer down and hand its block back, invalidating the CPU
    /// cache for the region first so a later reuse of the block cannot read
    /// stale lines. The invalidate call is made exactly once; its failure is
    /// deliberately swallowed, since teardown cannot fail outward.
    pub fn destroy(self, cache: &mut CacheContext) -> (b: Block)
        requires
            self.wf(),
        ensures
            final(cache)@ == old(cache)@.push(
                (CacheOp {
                    kind: CacheOpKind::Invalidate,
                    addr: self.spec_base(),
                    len: self.spec_data().len() as u32,
                }),
            ),
            !final(cache).spec_invalidate_fault(),
            final(cache).spec_flush_fault() == old(cache).spec_flush_fault(),
            b.wf(),
            b.spec_base() == self.spec_base(),
            b.spec_bytes() == self.spec_data(),
    {
        let len: u32 = self.data.len() as u32;
        let _ = cache.invalidate(self.base, len);
        Block::from_parts(self.base, self.data)
    }
}

/// A transient playback handle: binds one [`WaveBuffer`] to one submission,
/// mirroring the hardware-visible descriptor and remembering which channel
/// the descriptor was submitted on. The handle owns the buffer for the
/// duration, so the buffer cannot be torn down under an in-flight handle.
pub struct WaveInfo {
    buffer: WaveBuffer,
    raw_data: WaveDescriptor,
    played_on_channel: Option<u8>,
}

impl WaveInfo {
    /// The sample buffer the handle is bound to.
    pub closed spec fn spec_buffer(&self) -> WaveBuffer {
        self.buffer
    }

    /// The hardware-visible descriptor.
    pub closed spec fn spec_raw(&self) -> WaveDescriptor {
        self.raw_data
    }

    /// The channel the handle was last submitted on, if any.
    pub closed spec fn spec_channel(&self) -> Option<u8> {
        self.played_on_channel
    }

    /// The buffer is well formed, the status byte is a valid encoding, the
    /// descriptor mirrors the buffer, and an in-flight handle is always bound
    /// to a channel.
    pub open spec fn wf(&self) -> bool {
        &&& self.spec_buffer().wf()
        &&& self.spec_raw().status <= 3
        &&& (self.spec_raw().status == 1 || self.spec_raw().status == 2)
            ==> self.spec_channel().is_some()
        &&& self.spec_raw().data_addr == self.spec_buffer().spec_base()
        &&& self.spec_raw().nsamples as int == self.spec_buffer().spec_nsamples() as int
    }

    /// Build a handle over a ready buffer: the descriptor's caller-controlled
    /// fields come from the buffer and the looping flag, its hardware-owned
    /// fields start zeroed, and nothing is submitted yet (status Free).
    pub fn new(buffer: WaveBuffer, looping: bool) -> (r: WaveInfo)
        requires
            buffer.wf(),
        ensures
            r.wf(),
            r.spec_buffer() == buffer,
            r.spec_channel().is_none(),
            r.spec_raw() == (WaveDescriptor {
                data_addr: buffer.spec_base(),
                nsamples: buffer.spec_nsamples() as u32,
                offset: 0,
                looping,
                status: 0,
                sequence_id: 0,
                next_addr: 0,
            }),
    {
        proof {
            assert(buffer.spec_format().spec_sample_size() >= 1);
            lemma_div_nonincreasing(
                buffer.spec_data().len() as int,
                buffer.spec_format().spec_sample_size() as int,
            );
        }
        let nsamples = buffer.get_sample_amount() as u32;
        let raw_data = WaveDescriptor {
            data_addr: buffer.base,
            nsamples,
            offset: 0,
            looping,
            status: 0,
            sequence_id: 0,
            next_addr: 0,
        };
        WaveInfo { buffer, raw_data, played_on_channel: None }
    }

    /// Mutable access to the underlying sample buffer, for rewriting its
    /// contents between submissions: denied while the handle is Queued or
    /// Playing, when the hardware may be reading the same memory. The
    /// buffer's address, format and sample count cannot change through this,
    /// so the descriptor stays in step.
    pub fn get_mut_wavebuffer(&mut self) -> (r: &mut WaveBuffer)
        requires
            old(self).spec_raw().status == 0 || old(self).spec_raw().status == 3,
        ensures
            *r == old(self).spec_buffer(),
            final(self).spec_buffer() == *final(r),
            final(self).spec_raw() == old(self).spec_raw(),
            final(self).spec_channel() == old(self).spec_channel(),
    {
        &mut self.buffer
    }

    /// A copy of the hardware-visible descriptor, for inspection.
    pub fn descriptor(&self) -> (r: WaveDescriptor)
        ensures
            r == self.spec_raw(),
    {
        self.raw_data
    }

    /// The channel the handle was last submitted on, if any.
    pub fn played_on(&self) -> (r: Option<u8>)
        ensures
            r == self.spec_channel(),
    {
        self.played_on_channel
    }

    /// Decode the hardware-owned status field. The handle's well-formedness
    /// guarantees a valid encoding; a corrupted byte is rejected by
    /// [`WaveStatus::try_from`] before it could reach this unwrap.
    pub fn get_status(&self) -> (r: WaveStatus)
        requires
            self.spec_raw().status <= 3,
        ensures
            r == WaveStatus::spec_decode(self.spec_raw().status),
    {
        WaveStatus::try_from(self.raw_data.status).unwrap()
    }

    /// Decode the hardware-owned status field without assuming it is intact:
    /// a byte outside the four known states is surfaced as the fatal
    /// [`Error::InvalidStatusEncoding`], never as some status.
    pub fn try_status(&self) -> (r: Result<WaveStatus, Error>)
        ensures
            r.is_ok() <==> self.spec_raw().status <= 3,
            r.is_ok() ==> r.unwrap() == WaveStatus::spec_decode(self.spec_raw().status),
            self.spec_raw().status > 3 ==> r == Err::<WaveStatus, Error>(
                Error::InvalidStatusEncoding,
            ),
    {
        WaveStatus::try_from(self.raw_data.status)
    }

    /// Submit the descriptor on a mixer channel: the hardware accepts it into
    /// its pending list (status moves Free → Queued), assigns it the next
    /// sequence id, and the handle records the channel it now belongs to.
    pub fn submit(&mut self, chans: &mut ChannelSystem, channel_id: u8)
        requires
            old(self).wf(),
            old(self).spec_raw().status == 0,
        ensures
            final(self).wf(),
            final(self).spec_buffer() == old(self).spec_buffer(),
            final(self).spec_channel() == Some(channel_id),
            final(self).spec_raw() == (WaveDescriptor {
                status: 1,
                sequence_id: old(chans).spec_next_seq(),
                ..old(self).spec_raw()
            }),
            final(chans).spec_clears() == old(chans).spec_clears(),
            final(chans).spec_next_seq() == crate::channel::seq_next(old(chans).spec_next_seq()),
    {
        let seq: u16 = chans.next_sequence();
        self.raw_data.status = 1;
        self.raw_data.sequence_id = seq;
        self.played_on_channel = Some(channel_id);
    }

    /// Reconstruct the descriptor for reuse after a completed (or never
    /// started) cycle: hardware-owned fields are reset rather than carried
    /// over, and the channel binding is dropped until the next submission.
    pub fn reset(&mut self)
        requires
            old(self).wf(),
            old(self).spec_raw().status == 0 || old(self).spec_raw().status == 3,
        ensures
            final(self).wf(),
            final(self).spec_buffer() == old(self).spec_buffer(),
            final(self).spec_channel().is_none(),
            final(self).spec_raw() == (WaveDescriptor {
                status: 0,
                sequence_id: 0,
                next_addr: 0,
                ..old(self).spec_raw()
            }),
    {
        self.raw_data.status = 0;
        self.raw_data.sequence_id = 0;
        self.raw_data.next_addr = 0;
        self.played_on_channel = None;
    }

    /// Tear the handle down and hand the buffer back. If the hardware still
    /// holds the buffer (status Queued or Playing), the bound channel is
    /// first told to clear it — exactly one `clear` call — so the hardware
    /// stops reading memory that software is about to consider free. A
    /// handle whose status is Free or Done needs, and causes, no hardware
    /// action.
    pub fn destroy(self, chans: &mut ChannelSystem) -> (b: WaveBuffer)
        requires
            self.wf(),
        ensures
            b == self.spec_buffer(),
            (self.spec_raw().status == 1 || self.spec_raw().status == 2)
                ==> final(chans).spec_clears() == old(chans).spec_clears().push(
                self.spec_channel().unwrap(),
            ),
            !(self.spec_raw().status == 1 || self.spec_raw().status == 2)
                ==> final(chans).spec_clears() == old(chans).spec_clears(),
            final(chans).spec_next_seq() == old(chans).spec_next_seq(),
    {
        match self.get_status() {
            WaveStatus::Free | WaveStatus::Done => (),
            _ => {
                // An in-flight handle is always bound to a channel.
                match self.played_on_channel {
                    Some(c) => chans.clear(c),
                    None => {
                        proof {
                            assert(false);
                        }
                    },
                }
            },
        }
        self.buffer
    }
}

/// For a buffer whose byte length is a multiple of its format's frame size,
/// the derived sample count is exact: multiplying it back by the frame size
/// recovers the byte length, with no rounding loss.
pub proof fn lemma_sample_count_exact(buf: WaveBuffer)
    requires
        buf.wf(),
        buf.spec_data().len() as int % buf.spec_format().spec_sample_size() as int == 0,
    ensures
        buf.spec_nsamples() as int * buf.spec_format().spec_sample_size() as int
            == buf.spec_data().len() as int,
{
    lemma_fundamental_div_mod(
        buf.spec_data().len() as int,
        buf.spec_format().spec_sample_size() as int,
    );
    assert(buf.spec_nsamples() as int * buf.spec_format().spec_sample_size() as int
        == buf.spec_format().spec_sample_size() as int * buf.spec_nsamples() as int)
        by (nonlinear_arith);
}

/// The asynchronous hardware consumer making progress on a submitted buffer:
/// one observable step of the status cycle, Queued → Playing or
/// Playing → Done. Software never drives this; it exists so the hardware's
/// side of the lifecycle can be exercised against the contracts.
pub fn hardware_advance(wave: &mut WaveInfo)
    requires
        old(wave).wf(),
        old(wave).spec_raw().status == 1 || old(wave).spec_raw().status == 2,
    ensures
        final(wave).wf(),
        final(wave).spec_buffer() == old(wave).spec_buffer(),
        final(wave).spec_channel() == old(wave).spec_channel(),
        final(wave).spec_raw() == (WaveDescriptor {
            status: (old(wave).spec_raw().status + 1) as u8,
            ..old(wave).spec_raw()
        }),
        WaveStatus::spec_decode(final(wave).spec_raw().status) == WaveStatus::spec_decode(
            old(wave).spec_raw().status,
        ).spec_next(),
{
    wave.raw_data.status = wave.raw_data.status + 1;
}

} // verus!
