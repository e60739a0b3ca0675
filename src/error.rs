use vstd::prelude::*;

verus! {

/// What can go wrong while talking to the game service.
pub enum Error {
    /// The HTTP transport failed, or a response body did not decode; the text
    /// is the transport's own description of the failure.
    ReqwestError(String),
    /// The service answered with a status other than 200; the text names the status.
    InvalidAPIResponse(String),
    /// A name that is neither of a game's two players.
    InvalidPlayerName(String),
    /// No protocol version in the probed range was accepted.
    UnknownCoreVersion(),
    /// Anything not covered above.
    Unknown,
}

pub type Result<T> = std::result::Result<T, Error>;

} // verus!
