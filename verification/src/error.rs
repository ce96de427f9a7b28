//! What can end a connection other than the client hanging up between messages.

use vstd::prelude::*;

verus! {

/// Why a connection was given up.
#[derive(Clone, Copy, Debug, PartialEq, Eq, Structural)]
pub enum ConnectionError {
    /// A header announced a message shorter than the header itself.
    SizeBelowHeader,
    /// The stream ended inside a header.
    TruncatedHeader,
    /// The stream ended inside a message body.
    TruncatedBody,
    /// A request to the display came without the four bytes of its new id.
    MissingNewId,
    /// The stream failed on a read or a write.
    Io,
    /// Input arrived after the connection had been closed.
    Closed,
}

impl ConnectionError {
    /// A one-line description, for logs.
    pub fn message(self) -> (text: &'static str)
        ensures
            text@ == self.message_spec()@,
    {
        match self {
            ConnectionError::SizeBelowHeader => "message size is smaller than the header",
            ConnectionError::TruncatedHeader => "stream ended inside a message header",
            ConnectionError::TruncatedBody => "stream ended inside a message body",
            ConnectionError::MissingNewId => "request carries no new id",
            ConnectionError::Io => "stream failure",
            ConnectionError::Closed => "connection is closed",
        }
    }

    /// The text that `message` returns.
    pub open spec fn message_spec(self) -> &'static str {
        match self {
            ConnectionError::SizeBelowHeader => "message size is smaller than the header",
            ConnectionError::TruncatedHeader => "stream ended inside a message header",
            ConnectionError::TruncatedBody => "stream ended inside a message body",
            ConnectionError::MissingNewId => "request carries no new id",
            ConnectionError::Io => "stream failure",
            ConnectionError::Closed => "connection is closed",
        }
    }
}

} // verus!
