//! End-to-end exercises of the allocator, cache discipline, buffers, handles
//! and the status lifecycle.

use ctru::cache::{CacheContext, CacheOpKind};
use ctru::channel::ChannelSystem;
use ctru::format::AudioFormat;
use ctru::vram::VramAllocator;
use ctru::wave::{hardware_advance, WaveBuffer, WaveInfo, WaveStatus};
use ctru::Error;

#[test]
fn free_space_drops_by_allocation_size() {
    let mut pool = VramAllocator::new(1000);
    assert_eq!(pool.free_space(), 1000);
    let block = pool.allocate(100, 4).unwrap();
    assert_eq!(block.size(), 100);
    assert_eq!(block.base() % 4, 0);
    assert!(pool.free_space() <= 1000 - 100);
}

#[test]
fn oversized_allocation_fails_without_mutation() {
    let mut pool = VramAllocator::new(100);
    let r = pool.allocate(200, 1);
    assert!(matches!(r, Err(Error::AllocationFailure)));
    assert_eq!(pool.free_space(), 100);
    // The failed request really left the pool usable.
    assert!(pool.allocate(100, 1).is_ok());
    assert_eq!(pool.free_space(), 0);
}

#[test]
fn zero_alignment_is_unsatisfiable() {
    let mut pool = VramAllocator::new(100);
    assert!(matches!(pool.allocate(10, 0), Err(Error::AllocationFailure)));
    assert_eq!(pool.free_space(), 100);
}

#[test]
fn freed_range_is_usable_whole_again() {
    let mut pool = VramAllocator::new(100);
    let first = pool.allocate(64, 4).unwrap();
    // Fill the rest so that only the freed range can serve the retry.
    let rest = pool.allocate(36, 1).unwrap();
    assert_eq!(pool.free_space(), 0);
    pool.deallocate(first);
    let again = pool.allocate(64, 4).unwrap();
    assert_eq!(again.size(), 64);
    assert_eq!(again.base() % 4, 0);
    assert_eq!(pool.free_space(), 0);
    pool.deallocate(rest);
    pool.deallocate(again);
    assert_eq!(pool.free_space(), 100);
}

#[test]
fn zero_sized_allocation_costs_nothing() {
    let mut pool = VramAllocator::new(16);
    let b = pool.allocate(0, 1).unwrap();
    assert_eq!(b.size(), 0);
    assert_eq!(pool.free_space(), 16);
    pool.deallocate(b);
    assert_eq!(pool.free_space(), 16);
}

#[test]
fn alignment_padding_is_not_lost() {
    let mut pool = VramAllocator::new(1000);
    let a = pool.allocate(1, 1).unwrap();
    assert_eq!(a.base(), 0);
    let b = pool.allocate(4, 8).unwrap();
    assert_eq!(b.base() % 8, 0);
    // Padding goes back to the free list: free space drops by exactly the sizes.
    assert_eq!(pool.free_space(), 1000 - 1 - 4);
}

#[test]
fn deallocate_restores_free_space() {
    let mut pool = VramAllocator::new(512);
    let block = pool.allocate(128, 4).unwrap();
    assert_eq!(pool.free_space(), 384);
    pool.deallocate(block);
    assert_eq!(pool.free_space(), 512);
    assert!(pool.allocate(384, 1).is_ok());
}

#[test]
fn reallocation_copies_the_contents_over() {
    let mut pool = VramAllocator::new(1000);
    let mut cache = CacheContext::new();
    // Fill a block with known bytes through a sample buffer.
    let block = pool.allocate(4, 1).unwrap();
    let mut buffer = WaveBuffer::new(block, AudioFormat::PCM8Mono, &mut cache).unwrap();
    buffer.rewrite_data(0, &vec![1u8, 2, 3, 4], &mut cache).unwrap();
    let block = buffer.destroy(&mut cache);
    assert_eq!(pool.free_space(), 996);

    // Grow: the old contents survive as the prefix.
    let grown = pool.reallocate(block, 8, 1).unwrap();
    assert_eq!(grown.size(), 8);
    assert_eq!(&grown.bytes()[0..4], &[1u8, 2, 3, 4]);
    assert_eq!(pool.free_space(), 1000 - 8);

    // Shrink: only the prefix fits.
    let shrunk = pool.reallocate(grown, 2, 1).unwrap();
    assert_eq!(shrunk.size(), 2);
    assert_eq!(&shrunk.bytes()[..], &[1u8, 2]);
    assert_eq!(pool.free_space(), 1000 - 2);
}

#[test]
fn failed_reallocation_returns_the_original_block() {
    let mut pool = VramAllocator::new(10);
    let block = pool.allocate(8, 1).unwrap();
    // The new block is carved while the old one still holds its space, so
    // this cannot fit even though 16 - 8 would after the free.
    let r = pool.reallocate(block, 16, 1);
    let (err, block) = match r {
        Err(p) => p,
        Ok(_) => panic!("reallocation cannot have fit"),
    };
    assert_eq!(err, Error::AllocationFailure);
    assert_eq!(block.size(), 8);
    assert_eq!(pool.free_space(), 2);
}

#[test]
fn sample_count_is_length_over_frame_size() {
    // 16000 bytes of 16-bit mono PCM hold exactly 8000 sample frames.
    let mut pool = VramAllocator::new(32768);
    let mut cache = CacheContext::new();
    let block = pool.allocate(16000, 4).unwrap();
    let buffer = WaveBuffer::new(block, AudioFormat::PCM16Mono, &mut cache).unwrap();
    assert_eq!(buffer.get_sample_amount(), 8000);
    assert_eq!(buffer.get_format(), AudioFormat::PCM16Mono);
}

#[test]
fn sample_count_per_format() {
    let mut pool = VramAllocator::new(1024);
    let mut cache = CacheContext::new();
    let cases = [
        (AudioFormat::PCM8Mono, 1usize),
        (AudioFormat::PCM8Stereo, 2),
        (AudioFormat::PCM16Mono, 2),
        (AudioFormat::PCM16Stereo, 4),
    ];
    for (format, frame) in cases {
        let block = pool.allocate(16, 1).unwrap();
        let buffer = WaveBuffer::new(block, format, &mut cache).unwrap();
        assert_eq!(buffer.get_sample_amount(), 16 / frame);
        assert_eq!(format.sample_size() as usize, frame);
        pool.deallocate(buffer.destroy(&mut cache));
    }
}

#[test]
fn construction_flushes_once_and_teardown_invalidates_once() {
    let mut pool = VramAllocator::new(256);
    let mut cache = CacheContext::new();
    let block = pool.allocate(64, 4).unwrap();
    let base = block.base();
    let buffer = WaveBuffer::new(block, AudioFormat::PCM8Mono, &mut cache).unwrap();
    assert_eq!(cache.op_count(), 1);
    let flush = cache.op_at(0);
    assert_eq!(flush.kind, CacheOpKind::Flush);
    assert_eq!(flush.addr, base);
    assert_eq!(flush.len, 64);

    let block = buffer.destroy(&mut cache);
    assert_eq!(cache.op_count(), 2);
    let inval = cache.op_at(1);
    assert_eq!(inval.kind, CacheOpKind::Invalidate);
    assert_eq!(inval.addr, base);
    assert_eq!(inval.len, 64);
    assert_eq!(block.base(), base);
    assert_eq!(block.size(), 64);
}

#[test]
fn flush_failure_is_surfaced_at_construction() {
    let mut pool = VramAllocator::new(256);
    let mut cache = CacheContext::new();
    let block = pool.allocate(64, 4).unwrap();
    cache.inject_flush_fault();
    let r = WaveBuffer::new(block, AudioFormat::PCM8Mono, &mut cache);
    let (err, block) = match r {
        Err(p) => p,
        Ok(_) => panic!("construction cannot succeed under a flush fault"),
    };
    assert_eq!(err, Error::CacheOperationFailure);
    // The failing call was still made (and recorded) ...
    assert_eq!(cache.op_count(), 1);
    assert_eq!(cache.op_at(0).kind, CacheOpKind::Flush);
    // ... and the block comes back, so its memory is not lost to the pool.
    pool.deallocate(block);
    assert_eq!(pool.free_space(), 256);
}

#[test]
fn invalidate_failure_is_swallowed_at_teardown() {
    let mut pool = VramAllocator::new(256);
    let mut cache = CacheContext::new();
    let block = pool.allocate(64, 4).unwrap();
    let buffer = WaveBuffer::new(block, AudioFormat::PCM8Mono, &mut cache).unwrap();
    cache.inject_invalidate_fault();
    // Teardown cannot fail outward: it completes and the call is recorded.
    let block = buffer.destroy(&mut cache);
    assert_eq!(block.size(), 64);
    assert_eq!(cache.op_count(), 2);
    assert_eq!(cache.op_at(1).kind, CacheOpKind::Invalidate);
}

#[test]
fn rewrite_reflushes_and_changes_the_bytes() {
    let mut pool = VramAllocator::new(64);
    let mut cache = CacheContext::new();
    let block = pool.allocate(4, 1).unwrap();
    let mut buffer = WaveBuffer::new(block, AudioFormat::PCM8Mono, &mut cache).unwrap();
    buffer.rewrite_data(1, &vec![7u8, 9u8], &mut cache).unwrap();
    assert_eq!(cache.op_count(), 2);
    assert_eq!(cache.op_at(1).kind, CacheOpKind::Flush);
    let data = buffer.get_mut_data();
    assert_eq!(data, &[0u8, 7, 9, 0]);
    // A raw rewrite through the mutable view is also visible.
    data[0] = 5;
    let data = buffer.get_mut_data();
    assert_eq!(data[0], 5);
    assert_eq!(buffer.get_sample_amount(), 4);
}

#[test]
fn invalid_status_byte_is_a_fatal_decode_error() {
    assert_eq!(WaveStatus::try_from(0).unwrap(), WaveStatus::Free);
    assert_eq!(WaveStatus::try_from(1).unwrap(), WaveStatus::Queued);
    assert_eq!(WaveStatus::try_from(2).unwrap(), WaveStatus::Playing);
    assert_eq!(WaveStatus::try_from(3).unwrap(), WaveStatus::Done);
    assert_eq!(WaveStatus::try_from(4).unwrap_err(), Error::InvalidStatusEncoding);
    assert_eq!(WaveStatus::try_from(255).unwrap_err(), Error::InvalidStatusEncoding);
}

#[test]
fn fresh_handle_mirrors_the_buffer() {
    let mut pool = VramAllocator::new(256);
    let mut cache = CacheContext::new();
    let block = pool.allocate(100, 4).unwrap();
    let base = block.base();
    let buffer = WaveBuffer::new(block, AudioFormat::PCM16Stereo, &mut cache).unwrap();
    let handle = WaveInfo::new(buffer, true);
    let d = handle.descriptor();
    assert_eq!(d.data_addr, base);
    assert_eq!(d.nsamples, 25);
    assert_eq!(d.offset, 0);
    assert!(d.looping);
    assert_eq!(d.status, 0);
    assert_eq!(d.sequence_id, 0);
    assert_eq!(d.next_addr, 0);
    assert_eq!(handle.played_on(), None);
    assert_eq!(handle.get_status(), WaveStatus::Free);
    assert_eq!(handle.try_status(), Ok(WaveStatus::Free));
}

#[test]
fn submission_and_hardware_progress_walk_the_cycle() {
    let mut pool = VramAllocator::new(256);
    let mut cache = CacheContext::new();
    let mut chans = ChannelSystem::new();
    let block = pool.allocate(32, 1).unwrap();
    let buffer = WaveBuffer::new(block, AudioFormat::PCM8Mono, &mut cache).unwrap();
    let mut handle = WaveInfo::new(buffer, false);

    handle.submit(&mut chans, 3);
    assert_eq!(handle.get_status(), WaveStatus::Queued);
    assert_eq!(handle.played_on(), Some(3));
    assert_eq!(handle.descriptor().sequence_id, 1);

    hardware_advance(&mut handle);
    assert_eq!(handle.get_status(), WaveStatus::Playing);
    hardware_advance(&mut handle);
    assert_eq!(handle.get_status(), WaveStatus::Done);
    assert_eq!(chans.clear_count(), 0);
}

#[test]
fn reset_reconstructs_the_descriptor_for_reuse() {
    let mut pool = VramAllocator::new(256);
    let mut cache = CacheContext::new();
    let mut chans = ChannelSystem::new();
    let block = pool.allocate(32, 1).unwrap();
    let buffer = WaveBuffer::new(block, AudioFormat::PCM8Mono, &mut cache).unwrap();
    let mut handle = WaveInfo::new(buffer, false);

    handle.submit(&mut chans, 0);
    hardware_advance(&mut handle);
    hardware_advance(&mut handle);
    assert_eq!(handle.get_status(), WaveStatus::Done);

    handle.reset();
    let d = handle.descriptor();
    assert_eq!(d.status, 0);
    assert_eq!(d.sequence_id, 0);
    assert_eq!(d.next_addr, 0);
    assert_eq!(handle.played_on(), None);

    handle.submit(&mut chans, 1);
    assert_eq!(handle.get_status(), WaveStatus::Queued);
    assert_eq!(handle.descriptor().sequence_id, 2);
    assert_eq!(handle.played_on(), Some(1));
}

#[test]
fn end_to_end_clean_playback_then_forced_teardown() {
    // Allocate a 4-byte-aligned 16000-byte block for 16-bit mono PCM.
    let mut pool = VramAllocator::new(65536);
    let mut cache = CacheContext::new();
    let mut chans = ChannelSystem::new();

    let block = pool.allocate(16000, 4).unwrap();
    let buffer = WaveBuffer::new(block, AudioFormat::PCM16Mono, &mut cache).unwrap();
    assert_eq!(buffer.get_sample_amount(), 8000);

    // First cycle: play to completion; no forced clear is needed.
    let mut handle = WaveInfo::new(buffer, false);
    handle.submit(&mut chans, 0);
    assert_eq!(handle.get_status(), WaveStatus::Queued);
    hardware_advance(&mut handle);
    assert_eq!(handle.get_status(), WaveStatus::Playing);
    hardware_advance(&mut handle);
    assert_eq!(handle.get_status(), WaveStatus::Done);
    let buffer = handle.destroy(&mut chans);
    assert_eq!(chans.clear_count(), 0);

    // Second cycle: tear the handle down while the hardware is still
    // playing; exactly one clear of channel 0 precedes the release.
    let mut handle = WaveInfo::new(buffer, false);
    handle.submit(&mut chans, 0);
    hardware_advance(&mut handle);
    assert_eq!(handle.get_status(), WaveStatus::Playing);
    let buffer = handle.destroy(&mut chans);
    assert_eq!(chans.clear_count(), 1);
    assert_eq!(chans.clear_at(0), 0);

    // Release the memory: invalidate once, then the pool gets it all back.
    let block = buffer.destroy(&mut cache);
    assert_eq!(cache.op_count(), 2);
    assert_eq!(cache.op_at(0).kind, CacheOpKind::Flush);
    assert_eq!(cache.op_at(1).kind, CacheOpKind::Invalidate);
    pool.deallocate(block);
    assert_eq!(pool.free_space(), 65536);
}

#[test]
fn destroying_a_queued_handle_clears_its_channel() {
    let mut pool = VramAllocator::new(256);
    let mut cache = CacheContext::new();
    let mut chans = ChannelSystem::new();
    let block = pool.allocate(32, 1).unwrap();
    let buffer = WaveBuffer::new(block, AudioFormat::PCM8Stereo, &mut cache).unwrap();
    let mut handle = WaveInfo::new(buffer, false);
    handle.submit(&mut chans, 5);
    assert_eq!(handle.get_status(), WaveStatus::Queued);
    let _buffer = handle.destroy(&mut chans);
    assert_eq!(chans.clear_count(), 1);
    assert_eq!(chans.clear_at(0), 5);
}

#[test]
fn destroying_a_free_handle_causes_no_hardware_action() {
    let mut pool = VramAllocator::new(256);
    let mut cache = CacheContext::new();
    let mut chans = ChannelSystem::new();
    let block = pool.allocate(32, 1).unwrap();
    let buffer = WaveBuffer::new(block, AudioFormat::PCM8Mono, &mut cache).unwrap();
    let handle = WaveInfo::new(buffer, false);
    let _buffer = handle.destroy(&mut chans);
    assert_eq!(chans.clear_count(), 0);
}

#[test]
fn buffer_access_through_the_handle() {
    let mut pool = VramAllocator::new(256);
    let mut cache = CacheContext::new();
    let block = pool.allocate(8, 1).unwrap();
    let buffer = WaveBuffer::new(block, AudioFormat::PCM8Mono, &mut cache).unwrap();
    let mut handle = WaveInfo::new(buffer, false);
    let inner = handle.get_mut_wavebuffer();
    assert_eq!(inner.get_sample_amount(), 8);
    inner.get_mut_data()[0] = 42;
    assert_eq!(handle.get_mut_wavebuffer().get_mut_data()[0], 42);
}
