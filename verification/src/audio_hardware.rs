//! The audio-hardware layer's data model: the device record.
//!
//! Discovering the default input device and querying its nominal sample rate
//! are OS calls made by the unverified audio layer; the device identifier the
//! OS answers with is a plain word, kept here.

use vstd::prelude::*;

verus! {

/// One audio device, as the engine sees it: the identifier the OS hands out.
#[derive(Clone, Copy, Debug, PartialEq, Eq, Structural)]
pub struct AudioDevice {
    id: u32,
}

impl AudioDevice {
    /// The OS identifier of this device.
    pub closed spec fn spec_id(self) -> u32 {
        self.id
    }

    /// Wraps a device identifier the OS answered with.
    pub fn new(id: u32) -> (r: AudioDevice)
        ensures
            r.spec_id() == id,
    {
        AudioDevice { id }
    }

    /// The OS identifier, for the audio layer's OS calls.
    pub fn id(&self) -> (i: u32)
        ensures
            i == self.spec_id(),
    {
        self.id
    }
}

} // verus!
