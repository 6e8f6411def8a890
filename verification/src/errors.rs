//! The failure taxonomy of a fetch cycle.
//!
//! A fetch either cannot reach the remote service (`Transport`), reaches it
//! but gets a non-success status (`Status`), or gets a body that does not
//! decode into the expected records (`Decode`).  Every one of these is
//! absorbed by the poller that produced it and never unwinds further.

use vstd::prelude::*;

verus! {

/// Why one fetch cycle failed.
#[derive(Debug, PartialEq, Eq)]
pub enum FetchError {
    /// The remote service could not be reached; carries the underlying cause.
    Transport(String),
    /// The remote service answered with a non-success status code.
    Status(u16),
    /// The response body could not be decoded; carries the underlying cause.
    Decode(String),
}

impl FetchError {
    /// A short label for the kind of failure, for status lines.
    pub fn kind_label(&self) -> (r: &'static str)
        ensures
            self matches FetchError::Transport(_) ==> r@ == "transport error"@,
            self matches FetchError::Status(_) ==> r@ == "status error"@,
            self matches FetchError::Decode(_) ==> r@ == "decode error"@,
    {
        match self {
            FetchError::Transport(_) => "transport error",
            FetchError::Status(_) => "status error",
            FetchError::Decode(_) => "decode error",
        }
    }
}

/// Classifies an HTTP status code: a success status yields no error, any
/// other status yields exactly `FetchError::Status` carrying that code.
pub fn check_status(code: u16) -> (r: Option<FetchError>)
    ensures
        r is None <==> 200 <= code <= 299,
        !(200 <= code <= 299) ==> r == Some(FetchError::Status(code)),
{
    if 200 <= code && code <= 299 {
        None
    } else {
        Some(FetchError::Status(code))
    }
}

} // verus!
