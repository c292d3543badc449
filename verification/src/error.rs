//! The errors that the backend reports.

use vstd::prelude::*;

verus! {

/// A feature that this backend cannot provide, whatever is asked of it.
#[derive(Clone, Copy, Debug, PartialEq, Eq)]
pub struct NotSupportedError {
    reason: &'static str,
}

impl View for NotSupportedError {
    type V = Seq<char>;

    /// The reason, as text.
    closed spec fn view(&self) -> Seq<char> {
        self.reason@
    }
}

impl NotSupportedError {
    /// An error that gives `reason` as what is not supported.
    pub fn new(reason: &'static str) -> (error: NotSupportedError)
        ensures
            error@ == reason@,
    {
        NotSupportedError { reason }
    }

    /// What is not supported.
    pub fn reason(&self) -> (reason: &'static str)
        ensures
            reason@ == self@,
    {
        self.reason
    }
}

/// A failure of the toolkit runtime or of the display connection.
#[derive(Clone, Debug, PartialEq, Eq)]
pub struct OsError {
    message: String,
}

impl View for OsError {
    type V = Seq<char>;

    /// The message, as text.
    closed spec fn view(&self) -> Seq<char> {
        self.message@
    }
}

impl OsError {
    /// An error that carries `message`.
    pub fn new(message: String) -> (error: OsError)
        ensures
            error@ == message@,
    {
        OsError { message }
    }

    /// What went wrong, in the toolkit's words.
    pub fn message(&self) -> (message: &str)
        ensures
            message@ == self@,
    {
        self.message.as_str()
    }
}

/// Why a request to the backend was not carried out.
#[derive(Clone, Debug, PartialEq, Eq)]
pub enum RequestError {
    /// The backend cannot do this at all.
    NotSupported(NotSupportedError),
    /// The toolkit or the display refused.
    Os(OsError),
}

impl From<NotSupportedError> for RequestError {
    fn from(error: NotSupportedError) -> (request: RequestError) {
        RequestError::NotSupported(error)
    }
}

impl vstd::std_specs::convert::FromSpecImpl<NotSupportedError> for RequestError {
    open spec fn obeys_from_spec() -> bool {
        true
    }

    open spec fn from_spec(error: NotSupportedError) -> RequestError {
        RequestError::NotSupported(error)
    }
}

impl From<OsError> for RequestError {
    fn from(error: OsError) -> (request: RequestError) {
        RequestError::Os(error)
    }
}

impl vstd::std_specs::convert::FromSpecImpl<OsError> for RequestError {
    open spec fn obeys_from_spec() -> bool {
        true
    }

    open spec fn from_spec(error: OsError) -> RequestError {
        RequestError::Os(error)
    }
}

/// Why the event loop could not be set up or run.
#[derive(Clone, Debug, PartialEq, Eq)]
pub enum EventLoopError {
    /// The toolkit runtime or the display connection failed.
    Os(OsError),
}

impl From<OsError> for EventLoopError {
    fn from(error: OsError) -> (event_loop: EventLoopError) {
        EventLoopError::Os(error)
    }
}

impl vstd::std_specs::convert::FromSpecImpl<OsError> for EventLoopError {
    open spec fn obeys_from_spec() -> bool {
        true
    }

    open spec fn from_spec(error: OsError) -> EventLoopError {
        EventLoopError::Os(error)
    }
}

/// Why no raw display handle could be given out.
#[derive(Clone, Copy, Debug, PartialEq, Eq, Structural, Hash)]
pub enum HandleError {
    /// The protocol is known, but the connection behind it is not there.
    Unavailable,
}

} // verus!
