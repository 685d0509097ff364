//! The audio-queue layer's data model: the queue and buffer records, the
//! callback argument record, and the buffer-size decision.
//!
//! Creating a queue, allocating its buffers, enqueueing, starting and
//! stopping are OS calls made by the unverified audio layer; it pairs each
//! OS handle with a record below. The one computation of that layer - how
//! many bytes a queue buffer needs for a stretch of audio in a given stream
//! format - lives here.

use vstd::prelude::*;
use crate::audio_format::StreamDescription;

verus! {

/// One audio queue, as the engine sees it: the OS handle, carried as an
/// opaque word for the unverified audio layer to pass back into OS calls.
pub struct AudioQueue {
    handle: u64,
}

impl AudioQueue {
    /// The OS handle this record carries.
    pub closed spec fn spec_handle(self) -> u64 {
        self.handle
    }

    /// Wraps the OS handle of a freshly created queue.
    pub fn new(handle: u64) -> (r: AudioQueue)
        ensures
            r.spec_handle() == handle,
    {
        AudioQueue { handle }
    }

    /// The OS handle, for the audio layer's OS calls.
    pub fn as_ref(&mut self) -> (h: u64)
        ensures
            h == old(self).spec_handle(),
            final(self).spec_handle() == old(self).spec_handle(),
    {
        self.handle
    }
}

/// One buffer allocated from an audio queue: the OS handle as an opaque
/// word, and the byte capacity it was allocated with.
pub struct Buffer {
    handle: u64,
    capacity: u32,
}

impl Buffer {
    /// The OS handle this record carries.
    pub closed spec fn spec_handle(self) -> u64 {
        self.handle
    }

    /// The byte capacity the buffer was allocated with.
    pub closed spec fn spec_capacity(self) -> u32 {
        self.capacity
    }

    /// Wraps the OS handle of a buffer freshly allocated with `capacity`
    /// bytes.
    pub fn new(handle: u64, capacity: u32) -> (r: Buffer)
        ensures
            r.spec_handle() == handle,
            r.spec_capacity() == capacity,
    {
        Buffer { handle, capacity }
    }

    /// The OS handle, for the audio layer's OS calls.
    pub fn as_ref(&mut self) -> (h: u64)
        ensures
            h == old(self).spec_handle(),
            final(self).spec_handle() == old(self).spec_handle(),
            final(self).spec_capacity() == old(self).spec_capacity(),
    {
        self.handle
    }

    /// The byte capacity the buffer was allocated with.
    pub fn capacity(&self) -> (c: u32)
        ensures
            c == self.spec_capacity(),
    {
        self.capacity
    }
}

/// What one queue callback invocation receives, as opaque words: the user
/// data, the queue handle, and the buffer handle the OS wants refilled or
/// drained.
#[derive(Clone, Copy, Debug, PartialEq, Eq, Structural)]
pub struct AudioQueueCallbackArgs {
    pub data: u64,
    pub queue: u64,
    pub buffer: u64,
}

/// Whether sizing a queue buffer for this stream format needs the queue's
/// maximum output packet size from the OS: only when the format fixes
/// neither the bytes per frame nor the bytes per packet.
pub fn needs_packet_size_query(desc: &StreamDescription) -> (b: bool)
    ensures
        b == (desc.bytes_per_frame == 0 && desc.bytes_per_packet == 0),
{
    desc.bytes_per_frame == 0 && desc.bytes_per_packet == 0
}

/// The byte size of a queue buffer that holds `frames` frames of
/// `desc`-shaped audio. A format with fixed-size frames needs exactly
/// `frames` of them; otherwise whole packets are counted (at least one),
/// each of the fixed packet size or, when packets vary too, of
/// `max_packet_size`.
pub open spec fn spec_buffer_size(desc: StreamDescription, frames: u32, max_packet_size: u32) -> int {
    if desc.bytes_per_frame > 0 {
        frames as int * desc.bytes_per_frame as int
    } else {
        let packet_size = if desc.bytes_per_packet > 0 {
            desc.bytes_per_packet as int
        } else {
            max_packet_size as int
        };
        let whole_packets = if desc.frames_per_packet > 0 {
            frames as int / desc.frames_per_packet as int
        } else {
            frames as int
        };
        let packets = if whole_packets == 0 {
            1int
        } else {
            whole_packets
        };
        packets * packet_size
    }
}

/// Computes the byte size of a queue buffer for `frames` frames of
/// `desc`-shaped audio; `max_packet_size` is the queue's maximum output
/// packet size, read beforehand exactly when `needs_packet_size_query` says
/// so (it is ignored otherwise).
pub fn buffer_size_bytes(desc: &StreamDescription, frames: u32, max_packet_size: u32) -> (bytes:
    u32)
    requires
        spec_buffer_size(*desc, frames, max_packet_size) <= u32::MAX as int,
    ensures
        bytes as int == spec_buffer_size(*desc, frames, max_packet_size),
{
    if desc.bytes_per_frame > 0 {
        frames * desc.bytes_per_frame
    } else {
        let packet_size: u32 = if desc.bytes_per_packet > 0 {
            desc.bytes_per_packet
        } else {
            max_packet_size
        };
        let whole_packets: u32 = if desc.frames_per_packet > 0 {
            frames / desc.frames_per_packet
        } else {
            frames
        };
        let packets: u32 = if whole_packets == 0 {
            1
        } else {
            whole_packets
        };
        packets * packet_size
    }
}

} // verus!
