use vstd::prelude::*;

verus! {

/// The HTTP statuses with which the service refuses a request.
#[derive(PartialEq, Eq, Structural, Clone, Copy, Debug)]
pub enum HttpStatus {
    BadRequest,
    Unauthorized,
    Forbidden,
    NotFound,
    Conflict,
    Gone,
    TooManyRequests,
    InternalServerError,
}

impl HttpStatus {
    /// The numeric status code.
    pub open spec fn spec_code(self) -> u16 {
        match self {
            HttpStatus::BadRequest => 400,
            HttpStatus::Unauthorized => 401,
            HttpStatus::Forbidden => 403,
            HttpStatus::NotFound => 404,
            HttpStatus::Conflict => 409,
            HttpStatus::Gone => 410,
            HttpStatus::TooManyRequests => 429,
            HttpStatus::InternalServerError => 500,
        }
    }

    /// The numeric status code sent on the wire.
    pub fn code(&self) -> (c: u16)
        ensures
            c == self.spec_code(),
    {
        match self {
            HttpStatus::BadRequest => 400,
            HttpStatus::Unauthorized => 401,
            HttpStatus::Forbidden => 403,
            HttpStatus::NotFound => 404,
            HttpStatus::Conflict => 409,
            HttpStatus::Gone => 410,
            HttpStatus::TooManyRequests => 429,
            HttpStatus::InternalServerError => 500,
        }
    }
}

} // verus!
