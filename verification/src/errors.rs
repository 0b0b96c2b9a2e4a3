//! The runtime's diagnosable error value, carried as plain data: an input
//! rejection with its message, a raw operating-system status code, a text
//! decode failure, a malformed reply from the introspection service, or a
//! size negotiation that did not settle within the retry bound.

use vstd::prelude::*;
use crate::text::{dec_signed_spec, i64_to_dec};

verus! {

/// A recoverable failure surfaced to the caller and, through the termination
/// protocol, to the user as one diagnostic line plus a negative exit code.
#[derive(Debug)]
pub enum RtError {
    /// A command-line argument the tool does not accept; carries the message.
    InvalidInput { message: String },
    /// A hard status code from the operating system, propagated unchanged.
    Os { code: i64 },
    /// Bytes at the process boundary did not decode as well-formed text, or
    /// an environment entry lacked its name/value separator.
    Decode,
    /// A reply from the introspection service did not line up with the
    /// submitted request batch.
    Protocol,
    /// The buffer-size negotiation kept reporting growth past the retry bound.
    DidNotConverge,
}

impl RtError {
    /// The user-visible message for this error.
    pub open spec fn message_spec(&self) -> Seq<char> {
        match self {
            RtError::InvalidInput { message } => message@,
            RtError::Os { code } => "os error "@ + dec_signed_spec(*code as int),
            RtError::Decode => "malformed text at process boundary"@,
            RtError::Protocol => "mismatched reply from system information service"@,
            RtError::DidNotConverge => "size negotiation did not converge"@,
        }
    }

    /// Renders the user-visible message; the result is exactly `message_spec`.
    pub fn message(&self) -> (r: String)
        ensures
            r@ == self.message_spec(),
    {
        match self {
            RtError::InvalidInput { message } => message.clone(),
            RtError::Os { code } => {
                let digits = i64_to_dec(*code);
                let r = "os error ".to_owned().concat(digits.as_str());
                r
            },
            RtError::Decode => "malformed text at process boundary".to_owned(),
            RtError::Protocol => "mismatched reply from system information service".to_owned(),
            RtError::DidNotConverge => "size negotiation did not converge".to_owned(),
        }
    }
}

} // verus!
