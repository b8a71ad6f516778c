//! HTTP status codes the service answers with.

use vstd::prelude::*;

verus! {

/// The status of a response.
#[derive(Clone, Copy, Debug, PartialEq, Eq, Structural)]
pub enum Status {
    /// 200: the request was served.
    Success,
    /// 400: the path parameter is not an identity.
    BadRequest,
    /// 404: no such resource, or the store failed on an identity-addressed request.
    NotFound,
    /// 405: the resource exists but does not take this method.
    MethodNotAllowed,
    /// 500: the store failed on a create request.
    InternalServerError,
}

impl Status {
    /// The numeric code of the status.
    pub open spec fn spec_code(self) -> int {
        match self {
            Status::Success => 200,
            Status::BadRequest => 400,
            Status::NotFound => 404,
            Status::MethodNotAllowed => 405,
            Status::InternalServerError => 500,
        }
    }

    /// The numeric code of the status, as sent on the wire.
    pub fn code(&self) -> (code: u16)
        ensures
            code == self.spec_code(),
    {
        match self {
            Status::Success => 200,
            Status::BadRequest => 400,
            Status::NotFound => 404,
            Status::MethodNotAllowed => 405,
            Status::InternalServerError => 500,
        }
    }

    /// Whether the status reports success.
    pub open spec fn spec_is_success(self) -> bool {
        self == Status::Success
    }

    /// Whether the status reports success.
    pub fn is_success(&self) -> (b: bool)
        ensures
            b == self.spec_is_success(),
            b <==> 200 <= self.spec_code() < 300,
    {
        matches!(self, Status::Success)
    }
}

/// The status that goes out with a response: success with a body, else the failure.
pub open spec fn spec_status_of<T>(response: Result<T, Status>) -> Status {
    match response {
        Ok(_) => Status::Success,
        Err(status) => status,
    }
}

/// The status that goes out with a response: success with a body, else the failure.
pub fn status_of<T>(response: &Result<T, Status>) -> (status: Status)
    ensures
        status == spec_status_of(*response),
{
    match response {
        Ok(_) => Status::Success,
        Err(status) => *status,
    }
}

} // verus!
