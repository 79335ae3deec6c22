//! A minimal authenticated request/response protocol engine.
//!
//! The crate parses HTTP-like requests from raw bytes, authenticates them
//! against a shared key with a replay-resistant nonce scheme, and serializes
//! responses back to the fixed wire format.

pub mod encoding;
pub mod hashing;
pub mod http;
pub mod key;
pub mod laws;
pub mod logger;
pub mod nonce;
pub mod request;
pub mod response;
pub mod util;

pub use key::{Key, KeyError};
pub use logger::{DummyLogger, ErrorText, Logger, MapResponse, ResultExt};
pub use nonce::{Nonce, NonceError, NonceValidityWitness};
pub use request::{Method, Request, RequestError};
pub use response::{Response, ResponseContent};
pub use util::{LockScreenError, NoDisplayError, ProcessNotRunningError};
