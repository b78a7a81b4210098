use vstd::prelude::*;

verus! {

/// What can go wrong when a command is built, sent or decoded.
#[derive(Debug, PartialEq, Eq)]
pub enum ReError {
    /// A caller-supplied value has no wire representation; nothing was sent.
    Encoding,
    /// The request never produced a usable response (network or HTTP failure,
    /// a body that is not a well-formed envelope).
    Transport(String),
    /// The store answered with an error envelope carrying this message.
    Remote(String),
    /// The store answered, but the payload does not have the expected shape.
    Decode,
}

pub type Result<T> = core::result::Result<T, ReError>;

} // verus!
