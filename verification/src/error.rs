//! Error kinds of the audio engine.
//!
//! Device and stream setup failures are fatal to `open`; decode-time failures
//! surface as a failed `play` and leave the previous playback state untouched.

use vstd::prelude::*;

verus! {

/// Everything that can go wrong while opening a device or loading a source.
#[derive(Clone, Copy, Debug, PartialEq, Eq, Structural)]
pub enum AudioError {
    /// No output device could be found.
    NoDevice,
    /// The chosen device offers no supported stream configuration.
    NoSupportedConfig,
    /// The container has no decodable default track.
    NoTrack,
    /// Not a single packet decoded successfully.
    NoAudioData,
    /// A packet's sample rate or channel count differs from the first packet's.
    FormatMismatch,
    /// The decode collaborator reported an input/output failure.
    DecodeIoError,
    /// The decode collaborator failed for any other reason.
    DecodeOtherError,
}

} // verus!
