use vstd::prelude::*;

verus! {

/// What went wrong while fetching, decoding or saving a dog picture.
#[derive(Debug, Clone, Copy, PartialEq, Eq, Structural)]
pub enum Error {
    /// The HTTP transport failed, timed out or answered with a non-success status.
    Network,
    /// The image API answered with a body of an unexpected shape.
    UpstreamProtocol,
    /// The downloaded bytes are not an image in a known format.
    Decode,
    /// Creating the output directory or writing the file failed.
    Io,
}

} // verus!
