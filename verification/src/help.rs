//! The shared help/version preamble of the trivial tools: look at the first
//! argument after the program name and either produce the text to print
//! before exiting successfully, or let the tool continue.

use vstd::prelude::*;
use crate::text::str_eq;

verus! {

/// Whether the preamble settles the run: print `output` and exit with code
/// zero, or carry on with the tool's own work.
pub enum HelpVersionOutcome {
    Exit { output: String },
    Continue,
}

/// The version line, from the tool's display name.
pub open spec fn tool_version_spec(name: Seq<char>) -> Seq<char> {
    name + " v0.1.0\n"@
}

/// The usage text, from the program name and the word naming the tool's
/// fixed exit behaviour.
pub open spec fn tool_usage_spec(prg: Seq<char>, code_word: Seq<char>) -> Seq<char> {
    "Usage: "@ + prg + " [OPTIONS...] [--] [ARGS...]\nTrivially exits "@ + code_word
        + "\nOptions:\n\t--help: Prints this message and exits\n\t--version: Prints version information and exits\n"@
}

/// Handles the common `--help` / `--version` preamble: the first argument
/// after the program name decides; anything else, or no argument, lets the
/// tool continue.
pub fn help_version(args: &Vec<String>, name: &str, code_word: &str) -> (r: HelpVersionOutcome)
    requires
        args@.len() >= 1,
    ensures
        args@.len() == 1 ==> r is Continue,
        args@.len() > 1 ==> {
            &&& args@[1]@ == "--version"@ ==> (r matches HelpVersionOutcome::Exit { output }
                && output@ == tool_version_spec(name@))
            &&& args@[1]@ == "--help"@ ==> (r matches HelpVersionOutcome::Exit { output }
                && output@ == tool_usage_spec(args@[0]@, code_word@))
            &&& args@[1]@ != "--version"@ && args@[1]@ != "--help"@ ==> r is Continue
        },
{
    proof {
        reveal_strlit("--help");
        reveal_strlit("--version");
        assert("--help"@.len() == 6);
        assert("--version"@.len() == 9);
    }
    if args.len() < 2 {
        return HelpVersionOutcome::Continue;
    }
    let prg = &args[0];
    let a = &args[1];
    if str_eq(a.as_str(), "--version") {
        let output = name.to_owned().concat(" v0.1.0\n");
        assert(output@ =~= tool_version_spec(name@));
        HelpVersionOutcome::Exit { output }
    } else if str_eq(a.as_str(), "--help") {
        let output = "Usage: ".to_owned().concat(prg.as_str()).concat(
            " [OPTIONS...] [--] [ARGS...]\nTrivially exits ",
        ).concat(code_word).concat(
            "\nOptions:\n\t--help: Prints this message and exits\n\t--version: Prints version information and exits\n",
        );
        assert(output@ =~= tool_usage_spec(args@[0]@, code_word@));
        HelpVersionOutcome::Exit { output }
    } else {
        HelpVersionOutcome::Continue
    }
}

} // verus!
