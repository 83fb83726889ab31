use vstd::prelude::*;

verus! {

/// Errors reported to callers of the dispenser's operations.
#[derive(Debug)]
pub enum ApiError {
    Unauthorized,
    Busy(String),
    Hardware(String),
    BadRequest(String),
    Internal(String),
}

/// The text that a caller sees for an error.
pub open spec fn error_text(e: ApiError) -> Seq<char> {
    match e {
        ApiError::Unauthorized => "Unauthorized request"@,
        ApiError::Busy(m) => "Dispenser is busy: "@ + m@,
        ApiError::Hardware(m) => "Hardware error: "@ + m@,
        ApiError::BadRequest(m) => "Bad request: "@ + m@,
        ApiError::Internal(m) => "Internal server error: "@ + m@,
    }
}

impl ApiError {
    /// Human-readable description of the error.
    pub fn message(&self) -> (r: String)
        ensures
            r@ == error_text(*self),
    {
        match self {
            ApiError::Unauthorized => String::from_str("Unauthorized request"),
            ApiError::Busy(m) => String::from_str("Dispenser is busy: ").concat(m.as_str()),
            ApiError::Hardware(m) => String::from_str("Hardware error: ").concat(m.as_str()),
            ApiError::BadRequest(m) => String::from_str("Bad request: ").concat(m.as_str()),
            ApiError::Internal(m) => String::from_str("Internal server error: ").concat(m.as_str()),
        }
    }
}

} // verus!
