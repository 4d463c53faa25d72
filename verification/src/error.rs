//! The failures of a command, and how they are shown.

use vstd::prelude::*;
use vstd::string::*;

verus! {

/// Why a single HTTP exchange did not yield a usable response.
#[derive(Debug, Clone, Copy, PartialEq, Eq, Structural)]
pub enum RequestFailure {
    /// The request never got an answer from the server.
    Transport,
    /// The server answered with a status outside the success range.
    Status,
    /// The server answered, but the body did not have the expected shape.
    Decode,
}

/// Every way a command can fail. Each failure ends the command at once;
/// nothing is retried.
#[derive(Debug, Clone, Copy, PartialEq, Eq, Structural)]
pub enum ClientError {
    /// The signing secret is not available.
    Configuration,
    /// Claims could not be serialised or signed, or a header value was
    /// rejected by the header encoder.
    Encoding,
    /// The HTTP exchange failed.
    Request(RequestFailure),
    /// A local file could not be read or written.
    Io,
}

impl ClientError {
    /// The diagnostic shown to the user, which names the kind of failure.
    pub open spec fn spec_message(self) -> Seq<char> {
        match self {
            ClientError::Configuration => "configuration error: the signing secret is not set"@,
            ClientError::Encoding => "encoding error: the token could not be encoded"@,
            ClientError::Request(RequestFailure::Transport) =>
                "request error: the server could not be reached"@,
            ClientError::Request(RequestFailure::Status) =>
                "request error: the server answered with a failure status"@,
            ClientError::Request(RequestFailure::Decode) =>
                "request error: the response could not be decoded"@,
            ClientError::Io => "i/o error: the file could not be read or written"@,
        }
    }

    /// The diagnostic shown to the user, which names the kind of failure.
    pub fn message(&self) -> (text: String)
        ensures
            text@ == self.spec_message(),
    {
        match self {
            ClientError::Configuration => String::from_str(
                "configuration error: the signing secret is not set",
            ),
            ClientError::Encoding => String::from_str(
                "encoding error: the token could not be encoded",
            ),
            ClientError::Request(RequestFailure::Transport) => String::from_str(
                "request error: the server could not be reached",
            ),
            ClientError::Request(RequestFailure::Status) => String::from_str(
                "request error: the server answered with a failure status",
            ),
            ClientError::Request(RequestFailure::Decode) => String::from_str(
                "request error: the response could not be decoded",
            ),
            ClientError::Io => String::from_str("i/o error: the file could not be read or written"),
        }
    }
}

} // verus!
