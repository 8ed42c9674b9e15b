use vstd::prelude::*;

verus! {

/// How one execution ended.
#[derive(Copy, Clone, Debug, PartialEq, Eq, Structural)]
pub enum ResponseStatus {
    Success,
    Error,
}

/// The outcome of executing one request. It carries the status and nothing
/// about the cause.
#[derive(Clone, Debug)]
pub struct Response {
    status: ResponseStatus,
}

impl Response {
    /// The status this response carries.
    pub closed spec fn status(&self) -> ResponseStatus {
        self.status
    }

    /// A response with this status.
    pub fn new(status: ResponseStatus) -> (response: Self)
        ensures
            response.status() == status,
    {
        Self { status }
    }

    /// The status.
    pub fn get_status(&self) -> (status: ResponseStatus)
        ensures
            status == self.status(),
    {
        self.status
    }
}

} // verus!
