//! The stream-format record the audio layer exchanges with the OS, and its
//! byte-level decoding.
//!
//! Property calls of the OS audio services answer with raw byte buffers; a
//! stream format arrives as a packed 40-byte record (little-endian: an 8-byte
//! sample-rate field followed by eight 4-byte fields). The unverified audio
//! layer hands those bytes over unread; decoding them into plain values
//! happens here.

use vstd::prelude::*;

verus! {

/// Why a property payload could not be decoded.
#[derive(Clone, Copy, Debug, PartialEq, Eq, Structural)]
pub enum DecodeError {
    /// A stream-format payload whose size is not the packed record's 40 bytes.
    WrongLength,
    /// A numeric payload shorter than its 4-byte value.
    TooShort,
    /// A file-format payload holding a code no known file type carries.
    UnknownFormat,
}

/// The byte size of a packed stream-format record.
pub const STREAM_DESCRIPTION_BYTES: usize = 40;

/// One audio stream format: how samples are laid out in packets and frames.
/// The sample rate is kept as the IEEE 754 double-precision encoding the OS
/// stores it in, carried as a plain `u64`; the engine never computes with it.
#[derive(Clone, Copy, Debug, PartialEq, Eq, Structural)]
pub struct StreamDescription {
    /// The sample rate in Hz, as its double-precision encoding.
    pub sample_rate_bits: u64,
    /// The four-character format code.
    pub format_id: u32,
    /// Format-specific flags.
    pub format_flags: u32,
    /// Bytes in one packet, or 0 when packets vary in size.
    pub bytes_per_packet: u32,
    /// Frames in one packet, or 0 when packets vary.
    pub frames_per_packet: u32,
    /// Bytes in one frame, or 0 when frames vary in size.
    pub bytes_per_frame: u32,
    /// Channels interleaved in one frame.
    pub channels_per_frame: u32,
    /// Bits in one channel's sample.
    pub bits_per_channel: u32,
    /// Padding the OS reserves; kept so records round-trip unchanged.
    pub reserved: u32,
}

/// The stream format packed in a 40-byte little-endian record.
pub open spec fn spec_stream_description(s: Seq<u8>) -> StreamDescription
    recommends
        s.len() == STREAM_DESCRIPTION_BYTES,
{
    StreamDescription {
        sample_rate_bits: vstd::bytes::spec_u64_from_le_bytes(s.subrange(0, 8)),
        format_id: vstd::bytes::spec_u32_from_le_bytes(s.subrange(8, 12)),
        format_flags: vstd::bytes::spec_u32_from_le_bytes(s.subrange(12, 16)),
        bytes_per_packet: vstd::bytes::spec_u32_from_le_bytes(s.subrange(16, 20)),
        frames_per_packet: vstd::bytes::spec_u32_from_le_bytes(s.subrange(20, 24)),
        bytes_per_frame: vstd::bytes::spec_u32_from_le_bytes(s.subrange(24, 28)),
        channels_per_frame: vstd::bytes::spec_u32_from_le_bytes(s.subrange(28, 32)),
        bits_per_channel: vstd::bytes::spec_u32_from_le_bytes(s.subrange(32, 36)),
        reserved: vstd::bytes::spec_u32_from_le_bytes(s.subrange(36, 40)),
    }
}

/// Decodes a packed 40-byte stream-format record; any other payload size is
/// refused.
pub fn parse_stream_description(data: &[u8]) -> (r: Result<StreamDescription, DecodeError>)
    ensures
        data@.len() == STREAM_DESCRIPTION_BYTES ==> r == Ok::<StreamDescription, DecodeError>(
            spec_stream_description(data@),
        ),
        data@.len() != STREAM_DESCRIPTION_BYTES ==> r == Err::<StreamDescription, DecodeError>(
            DecodeError::WrongLength,
        ),
{
    if data.len() != STREAM_DESCRIPTION_BYTES {
        return Err(DecodeError::WrongLength);
    }
    let sample_rate_bits: u64 = vstd::bytes::u64_from_le_bytes(
        vstd::slice::slice_subrange(data, 0, 8),
    );
    let format_id: u32 = vstd::bytes::u32_from_le_bytes(vstd::slice::slice_subrange(data, 8, 12));
    let format_flags: u32 = vstd::bytes::u32_from_le_bytes(vstd::slice::slice_subrange(data, 12, 16));
    let bytes_per_packet: u32 = vstd::bytes::u32_from_le_bytes(
        vstd::slice::slice_subrange(data, 16, 20),
    );
    let frames_per_packet: u32 = vstd::bytes::u32_from_le_bytes(
        vstd::slice::slice_subrange(data, 20, 24),
    );
    let bytes_per_frame: u32 = vstd::bytes::u32_from_le_bytes(
        vstd::slice::slice_subrange(data, 24, 28),
    );
    let channels_per_frame: u32 = vstd::bytes::u32_from_le_bytes(
        vstd::slice::slice_subrange(data, 28, 32),
    );
    let bits_per_channel: u32 = vstd::bytes::u32_from_le_bytes(
        vstd::slice::slice_subrange(data, 32, 36),
    );
    let reserved: u32 = vstd::bytes::u32_from_le_bytes(vstd::slice::slice_subrange(data, 36, 40));
    Ok(
        StreamDescription {
            sample_rate_bits,
            format_id,
            format_flags,
            bytes_per_packet,
            frames_per_packet,
            bytes_per_frame,
            channels_per_frame,
            bits_per_channel,
            reserved,
        },
    )
}

/// Reads the single little-endian `u32` value of a numeric property payload
/// (the payload must hold at least its 4 bytes).
pub fn parse_u32_payload(data: &[u8]) -> (r: Result<u32, DecodeError>)
    ensures
        data@.len() >= 4 ==> r == Ok::<u32, DecodeError>(
            vstd::bytes::spec_u32_from_le_bytes(data@.subrange(0, 4)),
        ),
        data@.len() < 4 ==> r == Err::<u32, DecodeError>(DecodeError::TooShort),
{
    if data.len() < 4 {
        return Err(DecodeError::TooShort);
    }
    Ok(vstd::bytes::u32_from_le_bytes(vstd::slice::slice_subrange(data, 0, 4)))
}

} // verus!
