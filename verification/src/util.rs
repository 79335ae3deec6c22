//! Error types for the platform actions a deployment runs after a request
//! is authenticated (sleeping the machine, locking the screen, taking a
//! screenshot). The actions themselves are platform I/O and live with the
//! surrounding application; these types carry their failures through the
//! response path.

use vstd::prelude::*;
use vstd::string::StringExecFns;

use crate::logger::ErrorText;
use crate::response::{Response, ResponseContent};

verus! {

/// Indicates that a process the action needs is not running.
#[derive(Debug, Clone, Copy)]
pub struct ProcessNotRunningError {
    process_name: &'static str,
}

impl ProcessNotRunningError {
    /// The (friendly) name of the missing process.
    pub closed spec fn spec_process_name(&self) -> Seq<char> {
        self.process_name@
    }

    /// Creates a new `ProcessNotRunningError`.
    pub fn new(process_name: &'static str) -> (r: Self)
        ensures
            r.spec_process_name() == process_name@,
    {
        ProcessNotRunningError { process_name }
    }

    /// The error's description.
    pub fn message(&self) -> (r: String)
        ensures
            r@ == self.spec_process_name() + " process isn't running"@,
    {
        self.process_name.to_owned().concat(" process isn't running")
    }
}

impl ErrorText for ProcessNotRunningError {
    fn error_text(&self) -> String {
        self.message()
    }
}

/// Indicates that locking the screen failed.
#[derive(Debug, Copy, Clone, Eq, PartialEq, Hash, Structural)]
pub struct LockScreenError;

impl LockScreenError {
    /// The error's description.
    pub fn message(&self) -> (r: &'static str)
        ensures
            r@ == "failed to lock the screen"@,
    {
        "failed to lock the screen"
    }
}

impl ErrorText for LockScreenError {
    fn error_text(&self) -> String {
        self.message().to_owned()
    }
}

/// Indicates that a screenshot was attempted but there was no display.
#[derive(Debug, Copy, Clone)]
pub struct NoDisplayError;

impl NoDisplayError {
    /// The error's description.
    pub fn message(&self) -> (r: &'static str)
        ensures
            r@ == "no display found (to screenshot)"@,
    {
        "no display found (to screenshot)"
    }
}

impl ErrorText for NoDisplayError {
    fn error_text(&self) -> String {
        self.message().to_owned()
    }
}

impl core::convert::From<NoDisplayError> for Response {
    /// The error response for a failed screenshot: status 400 with the
    /// error's description as text content.
    fn from(value: NoDisplayError) -> (r: Response)
        ensures
            r.status == 400,
            r.content matches ResponseContent::Text(m) && m@ == "no display found (to screenshot)"@,
    {
        Response::from_message(400, value.message().to_owned())
    }
}

impl vstd::std_specs::convert::FromSpecImpl<NoDisplayError> for Response {
    open spec fn obeys_from_spec() -> bool {
        false
    }

    open spec fn from_spec(v: NoDisplayError) -> Response {
        arbitrary()
    }
}

} // verus!
