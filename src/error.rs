use vstd::prelude::*;

verus! {

/// The code of a `Protocol` error that the server did not send: a reply the
/// library cannot read, such as a property of unknown width. The server's own
/// error codes start at 1.
pub const UNREADABLE_REPLY: u8 = 0;

/// Why setting up the background failed.
#[derive(Clone, Copy, Debug, PartialEq, Eq, Structural)]
pub enum Error {
    /// The display offers no screen at the index the session selected.
    NoScreenFound,
    /// The server refused to allocate the pixmap or its graphics context.
    ResourceCreationFailure { code: u8 },
    /// A convention atom could not be forced into existence.
    FailedRootAtomCreation,
    /// The server rejected a request with the given error code, or sent a
    /// reply that cannot be read (`UNREADABLE_REPLY`).
    Protocol { code: u8 },
    /// The connection to the display failed.
    Transport,
    /// The driver handed in a reply that does not answer the pending request.
    UnexpectedReply,
    /// Loading an image file is not supported.
    UnsupportedFeature,
}

} // verus!
