//! A client library for the Star Realms game service: session bootstrap
//! (login, then discovery of the protocol version the server accepts) and
//! the activity snapshot with its game, challenge and player records.
//!
//! The library decides; the caller's transport performs. A [`Bootstrap`]
//! hands out [`Action`]s (requests to send, a body to decode) and takes back
//! [`Event`]s (statuses, decoded tokens, transport failures) until it yields
//! a [`StarRealms`] session or an [`Error`].

mod data;
mod error;
mod session;

pub use data::{Activity, Challenge, ClientData, Game, Token};
pub use error::{Error, Result};
pub use session::{
    check_status, Action, Bootstrap, Event, Phase, Request, StarRealms, CORE_VERSION_END,
    FIRST_CORE_VERSION, STATUS_OK,
};
