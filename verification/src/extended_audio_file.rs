//! The extended-audio-file layer's data model: the file record, property
//! identifiers, and the decoding of property payloads.
//!
//! Opening a file, reading and writing frames, and the property calls
//! themselves are OS calls made by the unverified audio layer; it pairs each
//! OS handle with the record below and decodes every payload here. Of the
//! extended file's properties only the client data format is writable; the
//! others are read-only.

use vstd::prelude::*;
use crate::audio_format::DecodeError;
use crate::audio_format::STREAM_DESCRIPTION_BYTES;
use crate::audio_format::StreamDescription;
use crate::audio_format::parse_stream_description;
use crate::audio_format::parse_u32_payload;
use crate::audio_format::spec_stream_description;

verus! {

/// One open extended audio file, as the engine sees it: the OS handle,
/// carried as an opaque word for the unverified audio layer to pass back
/// into OS calls.
pub struct ExtAudioFile {
    handle: u64,
}

impl ExtAudioFile {
    /// The OS handle this record carries.
    pub closed spec fn spec_handle(self) -> u64 {
        self.handle
    }

    /// Wraps the OS handle of a freshly opened file.
    pub fn new(handle: u64) -> (r: ExtAudioFile)
        ensures
            r.spec_handle() == handle,
    {
        ExtAudioFile { handle }
    }

    /// The OS handle, for the audio layer's OS calls.
    pub fn handle(&self) -> (h: u64)
        ensures
            h == self.spec_handle(),
    {
        self.handle
    }
}

/// The extended-file properties the layer reads or writes.
#[derive(Clone, Copy, Debug, PartialEq, Eq, Hash, Structural)]
pub enum ExtAudioFilePropertyId {
    FileDataFormat,
    ClientDataFormat,
    FileMaxPacketSize,
    ClientMaxPacketSize,
    FileLengthFrames,
}

/// The OS property selector of each extended-file property.
pub open spec fn spec_ext_property_code(id: ExtAudioFilePropertyId) -> u32 {
    match id {
        ExtAudioFilePropertyId::FileDataFormat => 1717988724u32,
        ExtAudioFilePropertyId::ClientDataFormat => 1667657076u32,
        ExtAudioFilePropertyId::FileMaxPacketSize => 1718448243u32,
        ExtAudioFilePropertyId::ClientMaxPacketSize => 1668116595u32,
        ExtAudioFilePropertyId::FileLengthFrames => 593916525u32,
    }
}

impl ExtAudioFilePropertyId {
    /// The OS property selector this identifier names.
    pub fn code(self) -> (c: u32)
        ensures
            c == spec_ext_property_code(self),
    {
        match self {
            ExtAudioFilePropertyId::FileDataFormat => 1717988724,
            ExtAudioFilePropertyId::ClientDataFormat => 1667657076,
            ExtAudioFilePropertyId::FileMaxPacketSize => 1718448243,
            ExtAudioFilePropertyId::ClientMaxPacketSize => 1668116595,
            ExtAudioFilePropertyId::FileLengthFrames => 593916525,
        }
    }
}

/// A decoded extended-file property value.
#[derive(Clone, Copy, Debug, PartialEq, Eq)]
pub enum ExtAudioFileProperty {
    FileDataFormat(StreamDescription),
    ClientDataFormat(StreamDescription),
    FileMaxPacketSize(u32),
    ClientMaxPacketSize(u32),
    FileLengthFrames(u32),
}

impl ExtAudioFileProperty {
    /// Whether the layer may write this property back to the OS: only the
    /// client data format is writable.
    pub fn is_writable(&self) -> (b: bool)
        ensures
            b == (self matches ExtAudioFileProperty::ClientDataFormat(_)),
    {
        match self {
            ExtAudioFileProperty::ClientDataFormat(_) => true,
            _ => false,
        }
    }
}

/// Decodes the raw payload an OS property call answered for `id`: the two
/// data formats are packed 40-byte records, the packet sizes and the frame
/// length are 4-byte values.
pub fn decode_ext_audio_file_property(id: ExtAudioFilePropertyId, data: Vec<u8>) -> (r: Result<
    ExtAudioFileProperty,
    DecodeError,
>)
    ensures
        id == ExtAudioFilePropertyId::FileDataFormat ==> r == (if data@.len()
            == STREAM_DESCRIPTION_BYTES {
            Ok::<ExtAudioFileProperty, DecodeError>(
                ExtAudioFileProperty::FileDataFormat(spec_stream_description(data@)),
            )
        } else {
            Err(DecodeError::WrongLength)
        }),
        id == ExtAudioFilePropertyId::ClientDataFormat ==> r == (if data@.len()
            == STREAM_DESCRIPTION_BYTES {
            Ok::<ExtAudioFileProperty, DecodeError>(
                ExtAudioFileProperty::ClientDataFormat(spec_stream_description(data@)),
            )
        } else {
            Err(DecodeError::WrongLength)
        }),
        id == ExtAudioFilePropertyId::FileMaxPacketSize ==> r == (if data@.len() < 4 {
            Err::<ExtAudioFileProperty, DecodeError>(DecodeError::TooShort)
        } else {
            Ok::<ExtAudioFileProperty, DecodeError>(
                ExtAudioFileProperty::FileMaxPacketSize(
                    vstd::bytes::spec_u32_from_le_bytes(data@.subrange(0, 4)),
                ),
            )
        }),
        id == ExtAudioFilePropertyId::ClientMaxPacketSize ==> r == (if data@.len() < 4 {
            Err::<ExtAudioFileProperty, DecodeError>(DecodeError::TooShort)
        } else {
            Ok::<ExtAudioFileProperty, DecodeError>(
                ExtAudioFileProperty::ClientMaxPacketSize(
                    vstd::bytes::spec_u32_from_le_bytes(data@.subrange(0, 4)),
                ),
            )
        }),
        id == ExtAudioFilePropertyId::FileLengthFrames ==> r == (if data@.len() < 4 {
            Err::<ExtAudioFileProperty, DecodeError>(DecodeError::TooShort)
        } else {
            Ok::<ExtAudioFileProperty, DecodeError>(
                ExtAudioFileProperty::FileLengthFrames(
                    vstd::bytes::spec_u32_from_le_bytes(data@.subrange(0, 4)),
                ),
            )
        }),
{
    match id {
        ExtAudioFilePropertyId::FileDataFormat => {
            match parse_stream_description(data.as_slice()) {
                Ok(desc) => Ok(ExtAudioFileProperty::FileDataFormat(desc)),
                Err(e) => Err(e),
            }
        },
        ExtAudioFilePropertyId::ClientDataFormat => {
            match parse_stream_description(data.as_slice()) {
                Ok(desc) => Ok(ExtAudioFileProperty::ClientDataFormat(desc)),
                Err(e) => Err(e),
            }
        },
        ExtAudioFilePropertyId::FileMaxPacketSize => {
            match parse_u32_payload(data.as_slice()) {
                Ok(v) => Ok(ExtAudioFileProperty::FileMaxPacketSize(v)),
                Err(e) => Err(e),
            }
        },
        ExtAudioFilePropertyId::ClientMaxPacketSize => {
            match parse_u32_payload(data.as_slice()) {
                Ok(v) => Ok(ExtAudioFileProperty::ClientMaxPacketSize(v)),
                Err(e) => Err(e),
            }
        },
        ExtAudioFilePropertyId::FileLengthFrames => {
            match parse_u32_payload(data.as_slice()) {
                Ok(v) => Ok(ExtAudioFileProperty::FileLengthFrames(v)),
                Err(e) => Err(e),
            }
        },
    }
}

} // verus!
