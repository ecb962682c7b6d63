use vstd::prelude::*;

verus! {

/// The error kinds that the visualization pipeline can report.
///
/// Every stage propagates the first error it meets upward unchanged;
/// there is no retry and no partial recovery.
#[derive(Clone, Copy, Debug, PartialEq, Eq, Structural)]
pub enum VisError {
    /// A required file is missing or unreadable, or the final image write failed.
    IOError,
    /// An array file is present but is not a valid array encoding.
    DecodeError,
    /// An input outside the accepted domain: an empty batch, zero channels,
    /// a name list too short for the channel count, or a bad user entry.
    InvalidInputError,
    /// The drawing backend reported a fault while a tile was being drawn.
    RenderError,
}

impl VisError {
    /// A short description of the error kind, for reporting to the user.
    pub fn message(&self) -> (r: &'static str)
        ensures
            *self is IOError ==> r@ == "file missing, unreadable, or not writable"@,
            *self is DecodeError ==> r@ == "file is not a valid array encoding"@,
            *self is InvalidInputError ==> r@ == "input outside the accepted domain"@,
            *self is RenderError ==> r@ == "drawing backend fault"@,
    {
        match self {
            VisError::IOError => "file missing, unreadable, or not writable",
            VisError::DecodeError => "file is not a valid array encoding",
            VisError::InvalidInputError => "input outside the accepted domain",
            VisError::RenderError => "drawing backend fault",
        }
    }
}

} // verus!
