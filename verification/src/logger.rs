//! Logging and the small result adapters the connection loop is built from.

use vstd::prelude::*;

use crate::response::Response;

verus! {

/// Implemented by loggers to record server events.
pub trait Logger {
    /// Logs general information about the server, such as listening on a
    /// port.
    fn info(&self, msg: &str);

    /// Logs that a connection was closed outside of normal circumstance,
    /// such as for an invalid key.
    fn connection_refused(&self, msg: &str);

    /// Logs an internal (server) error.
    fn server_error(&self, msg: &str);
}

/// A logger which does nothing and drops all logs.
#[derive(Debug, Copy, Clone)]
pub struct DummyLogger;

impl DummyLogger {
    /// Makes a new `DummyLogger`.
    pub fn new() -> DummyLogger {
        DummyLogger {  }
    }
}

impl Logger for DummyLogger {
    fn info(&self, _msg: &str) {
    }

    fn connection_refused(&self, _msg: &str) {
    }

    fn server_error(&self, _msg: &str) {
    }
}

/// Implemented by error types that can describe themselves in a line of
/// text, for logs and error responses.
pub trait ErrorText {
    /// The error's description.
    fn error_text(&self) -> String;
}

/// Response and logging helpers on `Result`.
pub trait ResultExt<T, E>: Sized {
    /// Whether this result is a success.
    spec fn is_success(&self) -> bool;

    /// Creates a `Response` of just a status code from this result: 200 on
    /// success, otherwise `err_status_code`.
    fn to_status_response(&self, err_status_code: u16) -> (r: Response)
        ensures
            r.status == if self.is_success() {
                200int
            } else {
                err_status_code as int
            },
            r.content is Empty,
    ;

    /// Logs the contained error as a refused connection; does nothing on
    /// success. Hands the result back unchanged.
    fn log_connection_refused<L: Logger>(self, logger: &L) -> (r: Self)
        ensures
            r == self,
    ;
}

impl<T, E: ErrorText> ResultExt<T, E> for Result<T, E> {
    open spec fn is_success(&self) -> bool {
        self is Ok
    }

    fn to_status_response(&self, err_status_code: u16) -> (r: Response) {
        match self {
            Ok(_) => Response::from_status(200),
            Err(_) => Response::from_status(err_status_code),
        }
    }

    fn log_connection_refused<L: Logger>(self, logger: &L) -> (r: Self) {
        if let Err(e) = &self {
            let msg = e.error_text();
            logger.connection_refused(msg.as_str());
        }
        self
    }
}

/// Turning a `Result` into a `Response` when the error already knows its
/// response form.
pub trait MapResponse<T>: Sized {
    /// Whether this result is a success.
    spec fn maps_through(&self) -> bool;

    /// The contained success value, meaningful when `maps_through` holds.
    spec fn success_value(&self) -> T;

    /// Turns the result into a response: the success value through `f`, the
    /// error through its conversion into an error response.
    fn into_response<F: Fn(T) -> Response>(self, f: F) -> (r: Response)
        requires
            forall|t: T| #[trigger] f.requires((t,)),
        ensures
            self.maps_through() ==> f.ensures((self.success_value(),), r),
    ;
}

impl<T, E: Into<Response>> MapResponse<T> for Result<T, E> {
    open spec fn maps_through(&self) -> bool {
        self is Ok
    }

    open spec fn success_value(&self) -> T {
        self->Ok_0
    }

    fn into_response<F: Fn(T) -> Response>(self, f: F) -> (r: Response) {
        match self {
            Ok(t) => f(t),
            Err(e) => e.into(),
        }
    }
}

} // verus!
