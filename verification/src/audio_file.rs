//! The audio-file layer's data model: file type codes, property identifiers,
//! and the decoding of property payloads.
//!
//! Opening, creating and closing files are OS calls made by the unverified
//! audio layer; what that layer computes - the mapping between file types and
//! their four-character codes, and the decoding of raw property payloads into
//! plain values - lives here.

use vstd::prelude::*;
use crate::audio_format::DecodeError;
use crate::audio_format::STREAM_DESCRIPTION_BYTES;
use crate::audio_format::StreamDescription;
use crate::audio_format::parse_stream_description;
use crate::audio_format::parse_u32_payload;
use crate::audio_format::spec_stream_description;

verus! {

/// The audio file types the layer recognizes, each standing for one
/// four-character type code.
#[allow(non_camel_case_types)]
#[derive(Clone, Copy, Debug, PartialEq, Eq, Hash, Structural)]
pub enum AudioFileTypeId {
    AIFF,
    AIFC,
    WAVE,
    SoundDesigner2,
    Next,
    MP3,
    MP2,
    MP1,
    AC3,
    AAC_ADTS,
    MPEG4,
    M4A,
    M4B,
    CAF,
    _3GP,
    _3GP2,
    AMR,
}

/// The four-character code of each file type.
pub open spec fn spec_file_type_code(t: AudioFileTypeId) -> u32 {
    match t {
        AudioFileTypeId::AIFF => 1095321158u32,
        AudioFileTypeId::AIFC => 1095321155u32,
        AudioFileTypeId::WAVE => 1463899717u32,
        AudioFileTypeId::SoundDesigner2 => 1399075430u32,
        AudioFileTypeId::Next => 1315264596u32,
        AudioFileTypeId::MP3 => 1297106739u32,
        AudioFileTypeId::MP2 => 1297106738u32,
        AudioFileTypeId::MP1 => 1297106737u32,
        AudioFileTypeId::AC3 => 1633889587u32,
        AudioFileTypeId::AAC_ADTS => 1633973363u32,
        AudioFileTypeId::MPEG4 => 1836069990u32,
        AudioFileTypeId::M4A => 1832149350u32,
        AudioFileTypeId::M4B => 1832149606u32,
        AudioFileTypeId::CAF => 1667327590u32,
        AudioFileTypeId::_3GP => 862417008u32,
        AudioFileTypeId::_3GP2 => 862416946u32,
        AudioFileTypeId::AMR => 1634562662u32,
    }
}

/// The file type carrying a four-character code, if any does.
pub open spec fn spec_file_type_from_u32(v: u32) -> Result<AudioFileTypeId, ()> {
    if v == 1095321158u32 {
        Ok(AudioFileTypeId::AIFF)
    } else if v == 1095321155u32 {
        Ok(AudioFileTypeId::AIFC)
    } else if v == 1463899717u32 {
        Ok(AudioFileTypeId::WAVE)
    } else if v == 1399075430u32 {
        Ok(AudioFileTypeId::SoundDesigner2)
    } else if v == 1315264596u32 {
        Ok(AudioFileTypeId::Next)
    } else if v == 1297106739u32 {
        Ok(AudioFileTypeId::MP3)
    } else if v == 1297106738u32 {
        Ok(AudioFileTypeId::MP2)
    } else if v == 1297106737u32 {
        Ok(AudioFileTypeId::MP1)
    } else if v == 1633889587u32 {
        Ok(AudioFileTypeId::AC3)
    } else if v == 1633973363u32 {
        Ok(AudioFileTypeId::AAC_ADTS)
    } else if v == 1836069990u32 {
        Ok(AudioFileTypeId::MPEG4)
    } else if v == 1832149350u32 {
        Ok(AudioFileTypeId::M4A)
    } else if v == 1832149606u32 {
        Ok(AudioFileTypeId::M4B)
    } else if v == 1667327590u32 {
        Ok(AudioFileTypeId::CAF)
    } else if v == 862417008u32 {
        Ok(AudioFileTypeId::_3GP)
    } else if v == 862416946u32 {
        Ok(AudioFileTypeId::_3GP2)
    } else if v == 1634562662u32 {
        Ok(AudioFileTypeId::AMR)
    } else {
        Err(())
    }
}

impl AudioFileTypeId {
    /// The file type carrying the four-character code `v`; an error exactly
    /// when no known type carries it.
    pub fn from_u32(v: u32) -> (r: Result<AudioFileTypeId, ()>)
        ensures
            r == spec_file_type_from_u32(v),
    {
        match v {
            1095321158u32 => Ok(AudioFileTypeId::AIFF),
            1095321155u32 => Ok(AudioFileTypeId::AIFC),
            1463899717u32 => Ok(AudioFileTypeId::WAVE),
            1399075430u32 => Ok(AudioFileTypeId::SoundDesigner2),
            1315264596u32 => Ok(AudioFileTypeId::Next),
            1297106739u32 => Ok(AudioFileTypeId::MP3),
            1297106738u32 => Ok(AudioFileTypeId::MP2),
            1297106737u32 => Ok(AudioFileTypeId::MP1),
            1633889587u32 => Ok(AudioFileTypeId::AC3),
            1633973363u32 => Ok(AudioFileTypeId::AAC_ADTS),
            1836069990u32 => Ok(AudioFileTypeId::MPEG4),
            1832149350u32 => Ok(AudioFileTypeId::M4A),
            1832149606u32 => Ok(AudioFileTypeId::M4B),
            1667327590u32 => Ok(AudioFileTypeId::CAF),
            862417008u32 => Ok(AudioFileTypeId::_3GP),
            862416946u32 => Ok(AudioFileTypeId::_3GP2),
            1634562662u32 => Ok(AudioFileTypeId::AMR),
            _ => Err(()),
        }
    }

    /// The four-character code of this file type.
    pub fn code(self) -> (c: u32)
        ensures
            c == spec_file_type_code(self),
    {
        match self {
            AudioFileTypeId::AIFF => 1095321158,
            AudioFileTypeId::AIFC => 1095321155,
            AudioFileTypeId::WAVE => 1463899717,
            AudioFileTypeId::SoundDesigner2 => 1399075430,
            AudioFileTypeId::Next => 1315264596,
            AudioFileTypeId::MP3 => 1297106739,
            AudioFileTypeId::MP2 => 1297106738,
            AudioFileTypeId::MP1 => 1297106737,
            AudioFileTypeId::AC3 => 1633889587,
            AudioFileTypeId::AAC_ADTS => 1633973363,
            AudioFileTypeId::MPEG4 => 1836069990,
            AudioFileTypeId::M4A => 1832149350,
            AudioFileTypeId::M4B => 1832149606,
            AudioFileTypeId::CAF => 1667327590,
            AudioFileTypeId::_3GP => 862417008,
            AudioFileTypeId::_3GP2 => 862416946,
            AudioFileTypeId::AMR => 1634562662,
        }
    }
}

/// Code round trip: every file type is recovered from its own code.
pub proof fn lemma_file_type_code_round_trip(t: AudioFileTypeId)
    ensures
        spec_file_type_from_u32(spec_file_type_code(t)) == Ok::<AudioFileTypeId, ()>(t),
{
}

/// The file properties the layer reads or writes.
#[derive(Clone, Copy, Debug, PartialEq, Eq, Hash, Structural)]
pub enum AudioFilePropertyId {
    FileFormat,
    DataFormat,
    MagicCookie,
    MaximumPacketSize,
}

/// The OS property selector of each file property.
pub open spec fn spec_file_property_code(id: AudioFilePropertyId) -> u32 {
    match id {
        AudioFilePropertyId::FileFormat => 1717988724u32,
        AudioFilePropertyId::DataFormat => 1684434292u32,
        AudioFilePropertyId::MagicCookie => 1835493731u32,
        AudioFilePropertyId::MaximumPacketSize => 1886616165u32,
    }
}

impl AudioFilePropertyId {
    /// The OS property selector this identifier names.
    pub fn code(self) -> (c: u32)
        ensures
            c == spec_file_property_code(self),
    {
        match self {
            AudioFilePropertyId::FileFormat => 1717988724,
            AudioFilePropertyId::DataFormat => 1684434292,
            AudioFilePropertyId::MagicCookie => 1835493731,
            AudioFilePropertyId::MaximumPacketSize => 1886616165,
        }
    }
}

/// A decoded file property value.
#[derive(Clone, Debug, PartialEq, Eq)]
pub enum AudioFileProperty {
    DataFormat(StreamDescription),
    FileFormat(AudioFileTypeId),
    MagicCookie(Vec<u8>),
    MaximumPacketSize(u32),
}

/// Decodes the raw payload an OS property call answered for `id`:
/// a data format is the packed 40-byte record, a file format is a 4-byte
/// type code that must be a known type, a magic cookie is the payload
/// itself, and a maximum packet size is a 4-byte value.
pub fn decode_audio_file_property(id: AudioFilePropertyId, data: Vec<u8>) -> (r: Result<
    AudioFileProperty,
    DecodeError,
>)
    ensures
        id == AudioFilePropertyId::DataFormat ==> r == (if data@.len()
            == STREAM_DESCRIPTION_BYTES {
            Ok::<AudioFileProperty, DecodeError>(
                AudioFileProperty::DataFormat(spec_stream_description(data@)),
            )
        } else {
            Err(DecodeError::WrongLength)
        }),
        id == AudioFilePropertyId::FileFormat ==> r == (if data@.len() < 4 {
            Err::<AudioFileProperty, DecodeError>(DecodeError::TooShort)
        } else {
            match spec_file_type_from_u32(
                vstd::bytes::spec_u32_from_le_bytes(data@.subrange(0, 4)),
            ) {
                Ok(t) => Ok::<AudioFileProperty, DecodeError>(AudioFileProperty::FileFormat(t)),
                Err(_) => Err::<AudioFileProperty, DecodeError>(DecodeError::UnknownFormat),
            }
        }),
        id == AudioFilePropertyId::MagicCookie ==> r == Ok::<AudioFileProperty, DecodeError>(
            AudioFileProperty::MagicCookie(data),
        ),
        id == AudioFilePropertyId::MaximumPacketSize ==> r == (if data@.len() < 4 {
            Err::<AudioFileProperty, DecodeError>(DecodeError::TooShort)
        } else {
            Ok::<AudioFileProperty, DecodeError>(
                AudioFileProperty::MaximumPacketSize(
                    vstd::bytes::spec_u32_from_le_bytes(data@.subrange(0, 4)),
                ),
            )
        }),
{
    match id {
        AudioFilePropertyId::DataFormat => {
            match parse_stream_description(data.as_slice()) {
                Ok(desc) => Ok(AudioFileProperty::DataFormat(desc)),
                Err(e) => Err(e),
            }
        },
        AudioFilePropertyId::FileFormat => {
            match parse_u32_payload(data.as_slice()) {
                Ok(code) => match AudioFileTypeId::from_u32(code) {
                    Ok(t) => Ok(AudioFileProperty::FileFormat(t)),
                    Err(_) => Err(DecodeError::UnknownFormat),
                },
                Err(e) => Err(e),
            }
        },
        AudioFilePropertyId::MagicCookie => Ok(AudioFileProperty::MagicCookie(data)),
        AudioFilePropertyId::MaximumPacketSize => {
            match parse_u32_payload(data.as_slice()) {
                Ok(v) => Ok(AudioFileProperty::MaximumPacketSize(v)),
                Err(e) => Err(e),
            }
        },
    }
}

} // verus!
