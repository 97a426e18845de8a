use vstd::prelude::*;

verus! {

/// Errors surfaced while reconstructing bundles or decoding payloads.
#[derive(Clone, Copy, Debug, PartialEq, Eq, Structural)]
pub enum BlockbusterError {
    /// A payload or side-channel log could not be deserialized.
    DeserializationError,
    /// A fixed-position field was missing or had the wrong length.
    InstructionParsingError,
    /// An application-log event was present but carried no usable data.
    MissingBubblegumEventData,
    /// Account data too short to hold the leading discriminator.
    InvalidDataLength,
    /// Account data begins with a discriminator no decoder knows.
    UnknownAccountDiscriminator,
}

} // verus!
