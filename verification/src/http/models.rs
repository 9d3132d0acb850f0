//! The envelope every REST response is wrapped in.
use vstd::prelude::*;

use crate::json::push_lit;
use crate::text::{owned, push_str};

verus! {

/// The envelope every REST endpoint wraps its payload in: `code` for status, `timestamp`
/// for server time in milliseconds, `error` when the request failed, and `data` for the
/// endpoint-specific payload. Success is decided by the absence of `error`: the venue does
/// not publish the success code.
#[derive(Debug, Clone)]
pub struct ApiResponse<T> {
    /// Venue status code as JSON text, retained verbatim for diagnostics.
    pub code: Option<String>,
    /// Server time in milliseconds, the reference for detecting clock skew.
    pub timestamp: Option<u64>,
    /// Present when the request failed.
    pub error: Option<String>,
    /// Endpoint-specific payload.
    pub data: Option<T>,
}

/// Failures expressed by the envelope itself.
#[derive(Debug, Clone, PartialEq, Eq)]
pub enum EnvelopeError {
    /// The venue reported an error, with its code when it gave one.
    Venue { code: Option<String>, message: String },
    /// The request succeeded but carried no payload.
    MissingData,
}

/// Text of a success without payload.
pub const MISSING_DATA: &'static str = "response reported success but carried no data payload";

impl EnvelopeError {
    pub open spec fn spec_message(self) -> Seq<char> {
        match self {
            EnvelopeError::Venue { code, message } => "venue rejected the request"@ + (match code {
                Some(c) => " (code "@ + c@ + ")"@,
                None => Seq::<char>::empty(),
            }) + ": "@ + message@,
            EnvelopeError::MissingData => MISSING_DATA@,
        }
    }

    /// The error as text: the venue's message with its code, or the missing-payload note.
    pub fn message(&self) -> (s: String)
        ensures
            s@ == self.spec_message(),
    {
        match self {
            EnvelopeError::Venue { code, message } => {
                let mut s = owned("venue rejected the request");
                let ghost head = s@;
                match code {
                    Some(c) => {
                        push_lit(&mut s, " (code ");
                        push_str(&mut s, c.as_str());
                        push_lit(&mut s, ")");
                        proof {
                            assert(s@ =~= head + (" (code "@ + c@ + ")"@));
                        }
                    },
                    None => {
                        proof {
                            assert(s@ =~= head + Seq::<char>::empty());
                        }
                    },
                }
                push_lit(&mut s, ": ");
                push_str(&mut s, message.as_str());
                s
            },
            EnvelopeError::MissingData => owned(MISSING_DATA),
        }
    }
}

impl<T> ApiResponse<T> {
    /// The payload, or the venue's error. An error wins even when a payload is present.
    pub fn into_result(self) -> (r: Result<T, EnvelopeError>)
        ensures
            self.error matches Some(m) ==> r == Err::<T, EnvelopeError>(
                EnvelopeError::Venue { code: self.code, message: m },
            ),
            self.error is None && self.data is Some ==> r == Ok::<T, EnvelopeError>(self.data->0),
            self.error is None && self.data is None ==> r == Err::<T, EnvelopeError>(
                EnvelopeError::MissingData,
            ),
    {
        match self.error {
            Some(message) => Err(EnvelopeError::Venue { code: self.code, message }),
            None => match self.data {
                Some(d) => Ok(d),
                None => Err(EnvelopeError::MissingData),
            },
        }
    }
}

} // verus!
