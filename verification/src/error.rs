//! Why a request can fail, and the status each failure is answered with.

use vstd::prelude::*;

verus! {

/// The status line of a response.
#[derive(Clone, Copy, Debug, PartialEq, Eq, Structural)]
pub enum StatusCode {
    /// 200 OK.
    Success,
    /// 201 Created.
    Created,
    /// 400 Bad Request.
    BadRequest,
    /// 404 Not Found.
    NotFound,
}

impl StatusCode {
    /// The number sent on the wire.
    pub open spec fn code(self) -> u16 {
        match self {
            StatusCode::Success => 200,
            StatusCode::Created => 201,
            StatusCode::BadRequest => 400,
            StatusCode::NotFound => 404,
        }
    }

    /// The number sent on the wire.
    pub fn as_u16(self) -> (code: u16)
        ensures
            code == self.code(),
    {
        match self {
            StatusCode::Success => 200,
            StatusCode::Created => 201,
            StatusCode::BadRequest => 400,
            StatusCode::NotFound => 404,
        }
    }
}

/// The two ways a request can fail.
#[derive(Clone, Copy, Debug, PartialEq, Eq, Structural)]
pub enum ServiceError {
    /// The request names an identifier that the store does not hold.
    NotFound,
    /// The path, the query or the body of the request could not be decoded.
    /// Such a request is answered before the store is touched.
    MalformedInput,
}

impl ServiceError {
    /// The status that reports this failure.
    pub open spec fn status(self) -> StatusCode {
        match self {
            ServiceError::NotFound => StatusCode::NotFound,
            ServiceError::MalformedInput => StatusCode::BadRequest,
        }
    }

    /// The status that reports this failure: 404 for an unknown identifier,
    /// 400 for input that could not be decoded.
    pub fn status_code(self) -> (status: StatusCode)
        ensures
            status == self.status(),
    {
        match self {
            ServiceError::NotFound => StatusCode::NotFound,
            ServiceError::MalformedInput => StatusCode::BadRequest,
        }
    }
}

} // verus!
