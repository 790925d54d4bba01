use vstd::prelude::*;

verus! {

/// The closed set of failures an operation can report.
#[derive(Clone, Copy, Debug, PartialEq, Eq, Structural)]
pub enum ServiceError {
    /// A path parameter that is not a unique-identifier string.
    MalformedId,
    /// A mutation that targeted no existing row.
    NotFound,
    /// Any failure of the persistence layer.
    StoreFailure,
}

/// The client-facing signal of an operation's outcome.
#[derive(Clone, Copy, Debug, PartialEq, Eq, Structural)]
pub enum Status {
    Success,
    Created,
    BadRequest,
    NotFound,
    InternalServerError,
}

pub open spec fn status_code(s: Status) -> u16 {
    match s {
        Status::Success => 200,
        Status::Created => 201,
        Status::BadRequest => 400,
        Status::NotFound => 404,
        Status::InternalServerError => 500,
    }
}

pub open spec fn error_status(e: ServiceError) -> Status {
    match e {
        ServiceError::MalformedId => Status::BadRequest,
        ServiceError::NotFound => Status::NotFound,
        ServiceError::StoreFailure => Status::InternalServerError,
    }
}

impl Status {
    /// The numeric HTTP status code of this signal.
    pub fn code(&self) -> (r: u16)
        ensures
            r == status_code(*self),
    {
        match self {
            Status::Success => 200,
            Status::Created => 201,
            Status::BadRequest => 400,
            Status::NotFound => 404,
            Status::InternalServerError => 500,
        }
    }
}

impl ServiceError {
    /// The signal under which this failure is reported to a client.
    pub fn status(&self) -> (r: Status)
        ensures
            r == error_status(*self),
    {
        match self {
            ServiceError::MalformedId => Status::BadRequest,
            ServiceError::NotFound => Status::NotFound,
            ServiceError::StoreFailure => Status::InternalServerError,
        }
    }
}

} // verus!
