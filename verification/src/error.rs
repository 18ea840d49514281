//! Errors of the types layer.
use vstd::prelude::*;

verus! {

/// What can go wrong while reading or checking API values.
#[derive(Debug, Clone, PartialEq, Eq)]
pub enum Error {
    /// A count from the platform does not fit the target integer type.
    Overflow,
    /// A value failed validation: a webhook secret outside `^[a-zA-Z0-9_-]{5,256}$`.
    Invalid,
    /// The platform answered a request with `success: false` and this message.
    Response { message: String },
}

/// Display text of an error: `overflow`; for a rejected secret, the message of the
/// pattern rule it failed; for a refused request, the platform's message.
pub open spec fn error_text(e: Error) -> Seq<char> {
    match e {
        Error::Overflow => "overflow"@,
        Error::Invalid => "does not match pattern /^[a-zA-Z0-9_-]{5,256}$/"@,
        Error::Response { message } => message@,
    }
}

impl Error {
    /// The error's display text.
    pub fn to_string(&self) -> (r: String)
        ensures
            r@ == error_text(*self),
    {
        match self {
            Error::Overflow => "overflow".to_owned(),
            Error::Invalid => "does not match pattern /^[a-zA-Z0-9_-]{5,256}$/".to_owned(),
            Error::Response { message } => message.clone(),
        }
    }
}

} // verus!
