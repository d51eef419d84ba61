use vstd::prelude::*;

verus! {

/// The media type of a streamed object.
pub const OCTET_STREAM: &'static str = "application/octet-stream";

/// Why the backend could not hand out an object.
#[derive(Debug, Clone, Copy, PartialEq, Eq, Structural)]
pub enum FetchError {
    /// No such namespace, database, bucket or path.
    NotFound,
    /// The session lacks the rights to read it.
    AccessDenied,
    /// A transient storage or I/O failure.
    BackendUnavailable,
}

/// The status that reports a fetch failure.
pub open spec fn status_of(e: FetchError) -> u16 {
    match e {
        FetchError::NotFound => 404,
        FetchError::AccessDenied => 403,
        FetchError::BackendUnavailable => 503,
    }
}

impl FetchError {
    pub fn status(&self) -> (r: u16)
        ensures
            r == status_of(*self),
    {
        match self {
            FetchError::NotFound => 404,
            FetchError::AccessDenied => 403,
            FetchError::BackendUnavailable => 503,
        }
    }
}

/// What the request handler answers once the fetch has settled.
#[derive(Debug, Clone, Copy, PartialEq, Eq, Structural)]
pub enum ResponsePlan {
    /// Status 200 with the octet-stream type; the body is the one message of
    /// a fresh channel, filled by a detached producer.
    Stream,
    /// The fetch failed before any header went out: a status from the
    /// failure, no body, no channel and no producer.
    Reject(FetchError),
    /// Status 200 with an empty body of length zero.
    Empty,
}

impl ResponsePlan {
    pub open spec fn spec_status(self) -> u16 {
        match self {
            ResponsePlan::Stream => 200,
            ResponsePlan::Reject(e) => status_of(e),
            ResponsePlan::Empty => 200,
        }
    }

    /// A channel and a producer task are created for this response.
    pub open spec fn spec_opens_stream(self) -> bool {
        self is Stream
    }

    pub open spec fn spec_has_content_type(self) -> bool {
        self is Stream
    }

    pub fn status(&self) -> (r: u16)
        ensures
            r == self.spec_status(),
    {
        match self {
            ResponsePlan::Stream => 200,
            ResponsePlan::Reject(e) => e.status(),
            ResponsePlan::Empty => 200,
        }
    }

    pub fn opens_stream(&self) -> (r: bool)
        ensures
            r == self.spec_opens_stream(),
    {
        match self {
            ResponsePlan::Stream => true,
            _ => false,
        }
    }

    /// The `Content-Type` header, where the response has one.
    pub fn content_type(&self) -> (r: Option<&'static str>)
        ensures
            self.spec_has_content_type() ==> r == Some(OCTET_STREAM),
            !self.spec_has_content_type() ==> r is None,
    {
        match self {
            ResponsePlan::Stream => Some(OCTET_STREAM),
            _ => None,
        }
    }
}

/// The plan for a fetch that ended with `failure` (`None`: it succeeded).
pub open spec fn plan_of(failure: Option<FetchError>) -> ResponsePlan {
    match failure {
        None => ResponsePlan::Stream,
        Some(e) => ResponsePlan::Reject(e),
    }
}

/// Decides the response once the backend fetch has settled: a stream after
/// a success, a rejection carrying the failure otherwise.
pub fn assemble(failure: Option<FetchError>) -> (r: ResponsePlan)
    ensures
        r == plan_of(failure),
{
    match failure {
        None => ResponsePlan::Stream,
        Some(e) => ResponsePlan::Reject(e),
    }
}

/// The answer to a preflight request on the same path, whatever it names.
pub fn preflight() -> (r: ResponsePlan)
    ensures
        r == ResponsePlan::Empty,
{
    ResponsePlan::Empty
}

} // verus!
