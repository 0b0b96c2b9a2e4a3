//! The termination protocol: maps an entry point's outcome — bare success, an
//! explicit integer, or a fallible computation — to a process exit code, and,
//! on failure, to exactly one diagnostic line naming the program.

use vstd::prelude::*;
use crate::errors::RtError;

verus! {

/// The exit code a failure outcome maps to.
pub const FAILURE_EXIT_CODE: i32 = -1;

/// What an entry point's outcome becomes: the process exit code handed back
/// to the loader, and at most one diagnostic line for the error stream.
pub struct Report {
    pub code: i32,
    pub diagnostic: Option<String>,
}

/// An outcome shape an entry point may return. `report` turns the value into
/// an exit code plus an optional diagnostic line; its contract pins both to
/// the shape's spec functions.
pub trait Termination: Sized {
    /// The exit code this outcome maps to.
    spec fn exit_code_spec(&self) -> int;

    /// The diagnostic line this outcome emits, given the program name.
    spec fn diagnostic_spec(&self, prg: Seq<char>) -> Option<Seq<char>>;

    /// Converts the outcome; `prg` is the resolved program name used in the
    /// diagnostic line of a failure.
    fn report(self, prg: &str) -> (r: Report)
        ensures
            r.code as int == self.exit_code_spec(),
            match self.diagnostic_spec(prg@) {
                Some(d) => r.diagnostic matches Some(line) && line@ == d,
                None => r.diagnostic is None,
            },
    ;
}

/// Bare success: exit code zero, no diagnostic.
impl Termination for () {
    open spec fn exit_code_spec(&self) -> int {
        0
    }

    open spec fn diagnostic_spec(&self, prg: Seq<char>) -> Option<Seq<char>> {
        None
    }

    fn report(self, prg: &str) -> (r: Report) {
        Report { code: 0, diagnostic: None }
    }
}

/// An explicit integer passes through unchanged, with no diagnostic.
impl Termination for i32 {
    open spec fn exit_code_spec(&self) -> int {
        *self as int
    }

    open spec fn diagnostic_spec(&self, prg: Seq<char>) -> Option<Seq<char>> {
        None
    }

    fn report(self, prg: &str) -> (r: Report) {
        Report { code: self, diagnostic: None }
    }
}

/// The one diagnostic line a failure produces: `"<program>: <message>"`.
pub open spec fn failure_line_spec(prg: Seq<char>, e: RtError) -> Seq<char> {
    prg + ": "@ + e.message_spec()
}

/// A fallible outcome: success recursively applies the protocol to its
/// payload; failure maps to the fixed failure code and one diagnostic line.
impl<T: Termination> Termination for Result<T, RtError> {
    open spec fn exit_code_spec(&self) -> int {
        match self {
            Ok(v) => v.exit_code_spec(),
            Err(_) => FAILURE_EXIT_CODE as int,
        }
    }

    open spec fn diagnostic_spec(&self, prg: Seq<char>) -> Option<Seq<char>> {
        match self {
            Ok(v) => v.diagnostic_spec(prg),
            Err(e) => Some(failure_line_spec(prg, *e)),
        }
    }

    fn report(self, prg: &str) -> (r: Report) {
        match self {
            Ok(v) => v.report(prg),
            Err(e) => {
                let msg = e.message();
                let line = prg.to_owned().concat(": ").concat(msg.as_str());
                proof {
                    assert(line@ =~= failure_line_spec(prg@, e));
                }
                Report { code: FAILURE_EXIT_CODE, diagnostic: Some(line) }
            },
        }
    }
}

} // verus!
