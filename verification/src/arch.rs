//! The machine-printing tool's logic: decide what its one optional argument
//! asks for, and render the architecture answer of the query protocol.

use vstd::prelude::*;
use crate::text::{str_eq, u32_to_dec};
use crate::uname::{
    ARCH_TYPE_AARCH64, ARCH_TYPE_ARM32, ARCH_TYPE_CLEVER_ISA, ARCH_TYPE_RISCV32,
    ARCH_TYPE_RISCV64, ARCH_TYPE_X86_64, ARCH_TYPE_X86_IA_32,
};

verus! {

/// What the tool should do after looking at its arguments: print a text and
/// exit with a code, or run the architecture query.
pub enum ArchAction {
    Exit { output: String, code: i32 },
    RunQuery,
}

/// The tool's usage text, parameterised by the program name.
pub open spec fn arch_usage_spec(prg: Seq<char>) -> Seq<char> {
    "Usage: "@ + prg
        + " [OPTION]\nPrints the host machine\nOptions:\n\t--help: Prints this message and exits\n\t--version: Prints version information and exits\n"@
}

/// The tool's version line.
pub open spec fn arch_version_spec() -> Seq<char> {
    "arch (lilium-tools) v0.1.0\n"@
}

/// The rejection line for an argument the tool does not know.
pub open spec fn arch_unknown_spec(prg: Seq<char>, a: Seq<char>) -> Seq<char> {
    prg + ": Unknown option "@ + a + "\n"@
}

/// Decides from the first argument after the program name: help and version
/// texts exit successfully, an unknown argument exits with code one, and no
/// argument at all runs the query.
pub fn arch_command(prg: &str, args: &Vec<String>) -> (r: ArchAction)
    ensures
        args@.len() == 0 ==> r is RunQuery,
        args@.len() > 0 ==> {
            &&& args@[0]@ == "--help"@ ==> (r matches ArchAction::Exit { output, code } && output@
                == arch_usage_spec(prg@) && code == 0)
            &&& args@[0]@ == "--version"@ ==> (r matches ArchAction::Exit { output, code }
                && output@ == arch_version_spec() && code == 0)
            &&& args@[0]@ != "--help"@ && args@[0]@ != "--version"@ ==> (r
                matches ArchAction::Exit { output, code } && output@ == arch_unknown_spec(
                prg@,
                args@[0]@,
            ) && code == 1)
        },
{
    proof {
        reveal_strlit("--help");
        reveal_strlit("--version");
        assert("--help"@.len() == 6);
        assert("--version"@.len() == 9);
    }
    if args.len() == 0 {
        return ArchAction::RunQuery;
    }
    let a = &args[0];
    if str_eq(a.as_str(), "--help") {
        let output = "Usage: ".to_owned().concat(prg).concat(
            " [OPTION]\nPrints the host machine\nOptions:\n\t--help: Prints this message and exits\n\t--version: Prints version information and exits\n",
        );
        assert(output@ =~= arch_usage_spec(prg@));
        ArchAction::Exit { output, code: 0 }
    } else if str_eq(a.as_str(), "--version") {
        ArchAction::Exit { output: "arch (lilium-tools) v0.1.0\n".to_owned(), code: 0 }
    } else {
        let output = prg.to_owned().concat(": Unknown option ").concat(a.as_str()).concat("\n");
        assert(output@ =~= arch_unknown_spec(prg@, a@));
        ArchAction::Exit { output, code: 1 }
    }
}

/// The line the tool prints for an architecture tag; unlike the
/// multi-fact tool it uses short lower-case names.
pub open spec fn arch_report_spec(t: u32) -> Seq<char> {
    if t == ARCH_TYPE_X86_64 {
        "x86_64\n"@
    } else if t == ARCH_TYPE_ARM32 {
        "arm\n"@
    } else if t == ARCH_TYPE_X86_IA_32 {
        "i686\n"@
    } else if t == ARCH_TYPE_AARCH64 {
        "aarch64\n"@
    } else if t == ARCH_TYPE_CLEVER_ISA {
        "clever\n"@
    } else if t == ARCH_TYPE_RISCV32 {
        "riscv32\n"@
    } else if t == ARCH_TYPE_RISCV64 {
        "riscv64\n"@
    } else {
        "**UNKNOWN ARCH "@ + crate::text::dec_spec(t as nat) + "**\n"@
    }
}

/// Renders the architecture line; exactly `arch_report_spec`.
pub fn arch_report(t: u32) -> (r: String)
    ensures
        r@ == arch_report_spec(t),
{
    if t == ARCH_TYPE_X86_64 {
        "x86_64\n".to_owned()
    } else if t == ARCH_TYPE_ARM32 {
        "arm\n".to_owned()
    } else if t == ARCH_TYPE_X86_IA_32 {
        "i686\n".to_owned()
    } else if t == ARCH_TYPE_AARCH64 {
        "aarch64\n".to_owned()
    } else if t == ARCH_TYPE_CLEVER_ISA {
        "clever\n".to_owned()
    } else if t == ARCH_TYPE_RISCV32 {
        "riscv32\n".to_owned()
    } else if t == ARCH_TYPE_RISCV64 {
        "riscv64\n".to_owned()
    } else {
        let r = "**UNKNOWN ARCH ".to_owned().concat(u32_to_dec(t).as_str()).concat("**\n");
        assert(r@ =~= arch_report_spec(t));
        r
    }
}

} // verus!
