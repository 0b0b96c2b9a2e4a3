//! The system-identification tool's logic: parsing its print-mode options,
//! planning the query batch those modes require, and rendering the answered
//! batch as the output line. The kernel call between planning and rendering
//! is the retry loop of `crate::query`, driven by the unverified shell.

use vstd::prelude::*;
use vstd::pervasive::unreached;
use crate::errors::RtError;
use crate::query::{Query, SubRequest, TextBuf};
use crate::text::{char_to_string, dec_spec, has_prefix, starts_with, str_eq, u32_to_dec};

verus! {

/// One system fact the tool can print, in output order.
#[derive(Clone, Copy, PartialEq, Eq, Structural, Debug)]
pub enum PrintMode {
    KernelName,
    NodeName,
    KernelRelease,
    KernelVersion,
    Machine,
    Processor,
    HardwarePlatform,
    Os,
}

/// Every print mode, in the order the `-a` flag expands to.
pub open spec fn all_modes() -> Seq<PrintMode> {
    seq![
        PrintMode::KernelName,
        PrintMode::NodeName,
        PrintMode::KernelRelease,
        PrintMode::KernelVersion,
        PrintMode::Machine,
        PrintMode::Processor,
        PrintMode::HardwarePlatform,
        PrintMode::Os,
    ]
}

/// The modes a single flag character stands for; `None` for an unknown flag.
pub open spec fn flag_modes(c: char) -> Option<Seq<PrintMode>> {
    if c == 'a' {
        Some(all_modes())
    } else if c == 's' {
        Some(seq![PrintMode::KernelName])
    } else if c == 'n' {
        Some(seq![PrintMode::NodeName])
    } else if c == 'r' {
        Some(seq![PrintMode::KernelRelease])
    } else if c == 'v' {
        Some(seq![PrintMode::KernelVersion])
    } else if c == 'm' {
        Some(seq![PrintMode::Machine])
    } else if c == 'p' {
        Some(seq![PrintMode::Processor])
    } else if c == 'i' {
        Some(seq![PrintMode::HardwarePlatform])
    } else if c == 'o' {
        Some(seq![PrintMode::Os])
    } else {
        None
    }
}

/// The expansion of a run of flag characters, left to right; the first
/// unknown character stops the expansion and is the error.
pub open spec fn flags_spec(chars: Seq<char>) -> Result<Seq<PrintMode>, char>
    decreases chars.len(),
{
    if chars.len() == 0 {
        Ok(Seq::empty())
    } else {
        match flag_modes(chars[0]) {
            None => Err(chars[0]),
            Some(ms) => match flags_spec(chars.skip(1)) {
                Err(c) => Err(c),
                Ok(rest) => Ok(ms + rest),
            },
        }
    }
}

/// What a scan of the argument list decides.
pub enum ParseOutcome {
    /// A version request stops the scan.
    Version,
    /// A help request stops the scan.
    Help,
    /// The accumulated print modes, with the default applied when none were
    /// named.
    Modes(Seq<PrintMode>),
    /// A long option the tool does not know.
    BadOption(Seq<char>),
    /// A flag character the tool does not know.
    BadFlag(char),
    /// A free-standing argument; the tool takes none.
    BadArgument(Seq<char>),
}

/// Scans the arguments after the program name, front to back.
pub open spec fn parse_rec(args: Seq<Seq<char>>, acc: Seq<PrintMode>) -> ParseOutcome
    decreases args.len(),
{
    if args.len() == 0 {
        ParseOutcome::Modes(acc)
    } else {
        let a = args[0];
        if a == "--version"@ {
            ParseOutcome::Version
        } else if a == "--help"@ {
            ParseOutcome::Help
        } else if has_prefix(a, "--"@) {
            ParseOutcome::BadOption(a)
        } else if has_prefix(a, "-"@) {
            match flags_spec(a.skip(1)) {
                Err(c) => ParseOutcome::BadFlag(c),
                Ok(ms) => parse_rec(args.skip(1), acc + ms),
            }
        } else {
            ParseOutcome::BadArgument(a)
        }
    }
}

/// The parse of an argument list: the scan's outcome, printing the kernel
/// name when no mode was named.
pub open spec fn parse_opts_spec(args: Seq<Seq<char>>) -> ParseOutcome {
    match parse_rec(args, Seq::empty()) {
        ParseOutcome::Modes(ms) => ParseOutcome::Modes(
            if ms.len() == 0 {
                seq![PrintMode::KernelName]
            } else {
                ms
            },
        ),
        o => o,
    }
}

/// What the tool should do after parsing its arguments.
pub enum UnameCommand {
    /// Print the version line and exit successfully.
    Version,
    /// Print the help text and exit successfully.
    Help,
    /// Query the system and print the named facts.
    Print(Vec<PrintMode>),
}

/// Appends the modes a known flag character stands for; an unknown one
/// appends nothing and reports failure.
fn push_flag_modes(c: char, acc: &mut Vec<PrintMode>) -> (ok: bool)
    ensures
        match flag_modes(c) {
            Some(ms) => ok && final(acc)@ == old(acc)@ + ms,
            None => !ok && final(acc)@ == old(acc)@,
        },
{
    if c == 'a' {
        acc.push(PrintMode::KernelName);
        acc.push(PrintMode::NodeName);
        acc.push(PrintMode::KernelRelease);
        acc.push(PrintMode::KernelVersion);
        acc.push(PrintMode::Machine);
        acc.push(PrintMode::Processor);
        acc.push(PrintMode::HardwarePlatform);
        acc.push(PrintMode::Os);
        assert(final(acc)@ =~= old(acc)@ + all_modes());
        true
    } else if c == 's' {
        acc.push(PrintMode::KernelName);
        assert(final(acc)@ =~= old(acc)@ + seq![PrintMode::KernelName]);
        true
    } else if c == 'n' {
        acc.push(PrintMode::NodeName);
        assert(final(acc)@ =~= old(acc)@ + seq![PrintMode::NodeName]);
        true
    } else if c == 'r' {
        acc.push(PrintMode::KernelRelease);
        assert(final(acc)@ =~= old(acc)@ + seq![PrintMode::KernelRelease]);
        true
    } else if c == 'v' {
        acc.push(PrintMode::KernelVersion);
        assert(final(acc)@ =~= old(acc)@ + seq![PrintMode::KernelVersion]);
        true
    } else if c == 'm' {
        acc.push(PrintMode::Machine);
        assert(final(acc)@ =~= old(acc)@ + seq![PrintMode::Machine]);
        true
    } else if c == 'p' {
        acc.push(PrintMode::Processor);
        assert(final(acc)@ =~= old(acc)@ + seq![PrintMode::Processor]);
        true
    } else if c == 'i' {
        acc.push(PrintMode::HardwarePlatform);
        assert(final(acc)@ =~= old(acc)@ + seq![PrintMode::HardwarePlatform]);
        true
    } else if c == 'o' {
        acc.push(PrintMode::Os);
        assert(final(acc)@ =~= old(acc)@ + seq![PrintMode::Os]);
        true
    } else {
        false
    }
}

/// Parses the arguments after the program name into the tool's command; an
/// unknown option, flag or argument is rejected with its message.
#[verifier::loop_isolation(false)]
pub fn parse_opts(args: &Vec<String>) -> (r: Result<UnameCommand, RtError>)
    ensures
        match parse_opts_spec(args.deep_view()) {
            ParseOutcome::Version => r matches Ok(UnameCommand::Version),
            ParseOutcome::Help => r matches Ok(UnameCommand::Help),
            ParseOutcome::Modes(ms) => (r matches Ok(UnameCommand::Print(v)) && v@ == ms),
            ParseOutcome::BadOption(a) => (r matches Err(e) && e matches RtError::InvalidInput {
                message,
            } && message@ == "Unknown Option "@ + a),
            ParseOutcome::BadFlag(c) => (r matches Err(e) && e matches RtError::InvalidInput {
                message,
            } && message@ == "Unknown Option -"@ + seq![c]),
            ParseOutcome::BadArgument(a) => (r matches Err(e) && e matches RtError::InvalidInput {
                message,
            } && message@ == "Unknown Argument "@ + a),
        },
{
    let ghost all = args.deep_view();
    let mut acc: Vec<PrintMode> = Vec::new();
    let mut i: usize = 0;
    let n = args.len();
    proof {
        assert(all.skip(0) =~= all);
    }
    while i < n
        invariant
            i <= n,
            n == all.len(),
            all == args.deep_view(),
            parse_rec(all, Seq::empty()) == parse_rec(all.skip(i as int), acc@),
        decreases n - i,
    {
        proof {
            assert(all.skip(i as int)[0] == all[i as int]);
            assert(all.skip(i as int).skip(1) =~= all.skip(i + 1));
            assert(args.deep_view()[i as int] == args[i as int]@);
        }
        let arg = &args[i];
        if str_eq(arg.as_str(), "--version") {
            return Ok(UnameCommand::Version);
        } else if str_eq(arg.as_str(), "--help") {
            return Ok(UnameCommand::Help);
        } else if starts_with(arg.as_str(), "--") {
            let message = "Unknown Option ".to_owned().concat(arg.as_str());
            return Err(RtError::InvalidInput { message });
        } else if starts_with(arg.as_str(), "-") {
            let ghost acc0 = acc@;
            let m = arg.unicode_len();
            let mut j: usize = 1;
            proof {
                reveal_strlit("-");
                assert(arg@.len() >= 1);
                assert(acc@.skip(acc0.len() as int) =~= Seq::<PrintMode>::empty());
            }
            while j < m
                invariant
                    1 <= j <= m,
                    m == arg@.len(),
                    acc0.len() <= acc@.len(),
                    acc@.subrange(0, acc0.len() as int) == acc0,
                    flags_spec(arg@.skip(1)) == (match flags_spec(arg@.skip(j as int)) {
                        Err(c) => Err::<Seq<PrintMode>, char>(c),
                        Ok(rest) => Ok(acc@.skip(acc0.len() as int) + rest),
                    }),
                decreases m - j,
            {
                let c = arg.get_char(j);
                proof {
                    assert(arg@.skip(j as int)[0] == arg@[j as int]);
                    assert(arg@.skip(j as int).skip(1) =~= arg@.skip(j + 1));
                }
                let ghost acc_before = acc@;
                let ok = push_flag_modes(c, &mut acc);
                if !ok {
                    assert(flags_spec(arg@.skip(j as int)) == Err::<Seq<PrintMode>, char>(c));
                    let message = "Unknown Option -".to_owned().concat(
                        char_to_string(c).as_str(),
                    );
                    assert(message@ =~= "Unknown Option -"@ + seq![c]);
                    return Err(RtError::InvalidInput { message });
                }
                proof {
                    let ms = flag_modes(c)->Some_0;
                    assert(acc@ == acc_before + ms);
                    assert(acc@.subrange(0, acc0.len() as int) =~= acc0);
                    assert(acc@.skip(acc0.len() as int) =~= acc_before.skip(acc0.len() as int)
                        + ms);
                    if flags_spec(arg@.skip(j + 1)) is Ok {
                        let rest = flags_spec(arg@.skip(j + 1))->Ok_0;
                        assert(flags_spec(arg@.skip(j as int)) == Ok::<Seq<PrintMode>, char>(
                            ms + rest,
                        ));
                        assert(acc_before.skip(acc0.len() as int) + (ms + rest) =~= acc@.skip(
                            acc0.len() as int,
                        ) + rest);
                    }
                }
                j = j + 1;
            }
            proof {
                assert(arg@.skip(m as int) =~= Seq::<char>::empty());
                assert(flags_spec(arg@.skip(1)) == Ok::<Seq<PrintMode>, char>(
                    acc@.skip(acc0.len() as int),
                ));
                assert(acc@ =~= acc0 + acc@.skip(acc0.len() as int));
            }
            i = i + 1;
        } else {
            let message = "Unknown Argument ".to_owned().concat(arg.as_str());
            return Err(RtError::InvalidInput { message });
        }
    }
    proof {
        assert(all.skip(n as int) =~= Seq::<Seq<char>>::empty());
    }
    if acc.len() == 0 {
        acc.push(PrintMode::KernelName);
        assert(acc@ =~= seq![PrintMode::KernelName]);
    }
    Ok(UnameCommand::Print(acc))
}

/// The tool's version line.
pub fn version_line() -> (r: String)
    ensures
        r@ == "uname 0.1.0\n"@,
{
    "uname 0.1.0\n".to_owned()
}

/// The tool's help text.
pub fn help_line() -> (r: String)
    ensures
        r@ == "<Insert Help Here>\n"@,
{
    "<Insert Help Here>\n".to_owned()
}

/// `m` occurs among the requested modes.
pub open spec fn has_mode(ms: Seq<PrintMode>, m: PrintMode) -> bool {
    exists|i: int| 0 <= i < ms.len() && ms[i] == m
}

/// The kernel-vendor sub-request is needed for the release or version lines.
pub open spec fn need_kvendor(ms: Seq<PrintMode>) -> bool {
    has_mode(ms, PrintMode::KernelVersion) || has_mode(ms, PrintMode::KernelRelease)
}

/// The OS-version sub-request is needed for the OS or version lines.
pub open spec fn need_osver(ms: Seq<PrintMode>) -> bool {
    has_mode(ms, PrintMode::Os) || has_mode(ms, PrintMode::KernelVersion)
}

/// The computer-name sub-request is needed for the node name.
pub open spec fn need_cname(ms: Seq<PrintMode>) -> bool {
    has_mode(ms, PrintMode::NodeName)
}

/// The architecture sub-request is needed for the machine facts.
pub open spec fn need_arch(ms: Seq<PrintMode>) -> bool {
    has_mode(ms, PrintMode::Machine) || has_mode(ms, PrintMode::Processor) || has_mode(
        ms,
        PrintMode::HardwarePlatform,
    )
}

/// A planned query batch: the query itself and, for each sub-request that the
/// requested modes need, its stable index into the batch.
pub struct Plan {
    pub query: Query,
    pub kvendor_index: Option<usize>,
    pub osver_index: Option<usize>,
    pub cname_index: Option<usize>,
    pub arch_index: Option<usize>,
}

/// The plan a mode list calls for: one slot per needed sub-request, packed in
/// a fixed order, each index present exactly when its modes are, and each
/// index naming a slot of the right tag.
pub open spec fn plan_matches(p: Plan, ms: Seq<PrintMode>) -> bool {
    let nk: int = if need_kvendor(ms) {
        1
    } else {
        0
    };
    let no: int = if need_osver(ms) {
        1
    } else {
        0
    };
    let nc: int = if need_cname(ms) {
        1
    } else {
        0
    };
    let na: int = if need_arch(ms) {
        1
    } else {
        0
    };
    &&& p.query.slots@.len() == nk + no + nc + na
    &&& p.kvendor_index == (if need_kvendor(ms) {
        Some(0usize)
    } else {
        None::<usize>
    })
    &&& p.osver_index == (if need_osver(ms) {
        Some(nk as usize)
    } else {
        None::<usize>
    })
    &&& p.cname_index == (if need_cname(ms) {
        Some((nk + no) as usize)
    } else {
        None::<usize>
    })
    &&& p.arch_index == (if need_arch(ms) {
        Some((nk + no + nc) as usize)
    } else {
        None::<usize>
    })
    &&& need_kvendor(ms) ==> p.query.slots@[0] is KernelVendor
    &&& need_osver(ms) ==> p.query.slots@[nk] is OsVersion
    &&& need_cname(ms) ==> p.query.slots@[nk + no] is ComputerName
    &&& need_arch(ms) ==> p.query.slots@[nk + no + nc] is ArchInfo
}

/// A text buffer as first offered: no content, zero capacity.
pub open spec fn buf_fresh(b: TextBuf) -> bool {
    b.content@ == Seq::<char>::empty() && b.cap == 0
}

/// A sub-request as first submitted: fresh buffers, zeroed numeric fields.
pub open spec fn slot_fresh(s: SubRequest) -> bool {
    match s {
        SubRequest::KernelVendor { vendor, major, minor } => buf_fresh(vendor) && major == 0
            && minor == 0,
        SubRequest::OsVersion { vendor, major, minor } => buf_fresh(vendor) && major == 0 && minor
            == 0,
        SubRequest::ComputerName { hostname, label, display } => buf_fresh(hostname) && buf_fresh(
            label,
        ) && buf_fresh(display),
        SubRequest::ArchInfo { arch_type, arch_version } => arch_type == 0 && arch_version == 0,
    }
}

/// Tests whether `m` occurs among the requested modes.
fn contains_mode(ms: &Vec<PrintMode>, m: PrintMode) -> (r: bool)
    ensures
        r == has_mode(ms@, m),
{
    let mut i: usize = 0;
    while i < ms.len()
        invariant
            i <= ms@.len(),
            forall|j: int| 0 <= j < i ==> ms@[j] != m,
        decreases ms@.len() - i,
    {
        if ms[i] == m {
            return true;
        }
        i = i + 1;
    }
    false
}

/// Plans the batch the requested modes need: one fresh sub-request per needed
/// category, in a fixed order, with the full retry budget. Indices into the
/// batch stay stable across retries; they are the only correlation between a
/// mode and its answers.
pub fn build_requests(modes: &Vec<PrintMode>) -> (p: Plan)
    ensures
        plan_matches(p, modes@),
        p.query.retries_left == crate::query::RETRY_BOUND,
        forall|i: int| 0 <= i < p.query.slots@.len() ==> slot_fresh(#[trigger] p.query.slots@[i]),
{
    let need_kv = contains_mode(modes, PrintMode::KernelVersion) || contains_mode(
        modes,
        PrintMode::KernelRelease,
    );
    let need_os = contains_mode(modes, PrintMode::Os) || contains_mode(
        modes,
        PrintMode::KernelVersion,
    );
    let need_cn = contains_mode(modes, PrintMode::NodeName);
    let need_ar = contains_mode(modes, PrintMode::Machine) || contains_mode(
        modes,
        PrintMode::Processor,
    ) || contains_mode(modes, PrintMode::HardwarePlatform);

    let mut slots: Vec<SubRequest> = Vec::new();
    let mut kvendor_index: Option<usize> = None;
    let mut osver_index: Option<usize> = None;
    let mut cname_index: Option<usize> = None;
    let mut arch_index: Option<usize> = None;

    if need_kv {
        kvendor_index = Some(slots.len());
        slots.push(SubRequest::KernelVendor { vendor: TextBuf::new(), major: 0, minor: 0 });
    }
    if need_os {
        osver_index = Some(slots.len());
        slots.push(SubRequest::OsVersion { vendor: TextBuf::new(), major: 0, minor: 0 });
    }
    if need_cn {
        cname_index = Some(slots.len());
        slots.push(
            SubRequest::ComputerName {
                hostname: TextBuf::new(),
                label: TextBuf::new(),
                display: TextBuf::new(),
            },
        );
    }
    if need_ar {
        arch_index = Some(slots.len());
        slots.push(SubRequest::ArchInfo { arch_type: 0, arch_version: 0 });
    }
    Plan { query: Query::new(slots), kvendor_index, osver_index, cname_index, arch_index }
}

/// The library's architecture tags, one per machine kind the tools name; an
/// unlisted value renders as unknown. The unverified shell translates the
/// kernel's own tag values to these.
pub const ARCH_TYPE_X86_64: u32 = 1;

pub const ARCH_TYPE_X86_IA_32: u32 = 2;

pub const ARCH_TYPE_AARCH64: u32 = 3;

pub const ARCH_TYPE_ARM32: u32 = 4;

pub const ARCH_TYPE_RISCV32: u32 = 5;

pub const ARCH_TYPE_RISCV64: u32 = 6;

pub const ARCH_TYPE_CLEVER_ISA: u32 = 7;

/// The machine line for an architecture tag.
pub open spec fn machine_name_spec(t: u32) -> Seq<char> {
    if t == ARCH_TYPE_X86_64 {
        "x86_64"@
    } else if t == ARCH_TYPE_X86_IA_32 {
        "i686"@
    } else if t == ARCH_TYPE_AARCH64 {
        "aarch64"@
    } else if t == ARCH_TYPE_ARM32 {
        "arm"@
    } else if t == ARCH_TYPE_RISCV32 {
        "riscv32"@
    } else if t == ARCH_TYPE_RISCV64 {
        "riscv64"@
    } else if t == ARCH_TYPE_CLEVER_ISA {
        "Clever-ISA"@
    } else {
        "**UNKNOWN ARCH**!"@
    }
}

/// Renders the machine name; exactly `machine_name_spec`.
pub fn machine_name(t: u32) -> (r: String)
    ensures
        r@ == machine_name_spec(t),
{
    if t == ARCH_TYPE_X86_64 {
        "x86_64".to_owned()
    } else if t == ARCH_TYPE_X86_IA_32 {
        "i686".to_owned()
    } else if t == ARCH_TYPE_AARCH64 {
        "aarch64".to_owned()
    } else if t == ARCH_TYPE_ARM32 {
        "arm".to_owned()
    } else if t == ARCH_TYPE_RISCV32 {
        "riscv32".to_owned()
    } else if t == ARCH_TYPE_RISCV64 {
        "riscv64".to_owned()
    } else if t == ARCH_TYPE_CLEVER_ISA {
        "Clever-ISA".to_owned()
    } else {
        "**UNKNOWN ARCH**!".to_owned()
    }
}

/// The processor/platform description for an architecture tag and version.
pub open spec fn processor_name_spec(t: u32, v: u32) -> Seq<char> {
    if t == ARCH_TYPE_X86_64 && v > 1 {
        "x86_64v"@ + dec_spec(v as nat)
    } else if t == ARCH_TYPE_X86_64 {
        "x86_64"@
    } else if t == ARCH_TYPE_X86_IA_32 {
        "i"@ + dec_spec(v as nat) + "86"@
    } else if t == ARCH_TYPE_AARCH64 {
        "aarch64"@
    } else if t == ARCH_TYPE_ARM32 {
        "arm"@
    } else if t == ARCH_TYPE_RISCV32 {
        "riscv32"@
    } else if t == ARCH_TYPE_RISCV64 {
        "riscv64"@
    } else if t == ARCH_TYPE_CLEVER_ISA {
        "Clever-ISA 1."@ + dec_spec(v as nat)
    } else {
        "Unknown Arch "@ + dec_spec(t as nat)
    }
}

/// Renders the processor description; exactly `processor_name_spec`.
pub fn processor_name(t: u32, v: u32) -> (r: String)
    ensures
        r@ == processor_name_spec(t, v),
{
    if t == ARCH_TYPE_X86_64 {
        if v > 1 {
            let r = "x86_64v".to_owned().concat(u32_to_dec(v).as_str());
            r
        } else {
            "x86_64".to_owned()
        }
    } else if t == ARCH_TYPE_X86_IA_32 {
        let r = "i".to_owned().concat(u32_to_dec(v).as_str()).concat("86");
        assert(r@ =~= processor_name_spec(t, v));
        r
    } else if t == ARCH_TYPE_AARCH64 {
        "aarch64".to_owned()
    } else if t == ARCH_TYPE_ARM32 {
        "arm".to_owned()
    } else if t == ARCH_TYPE_RISCV32 {
        "riscv32".to_owned()
    } else if t == ARCH_TYPE_RISCV64 {
        "riscv64".to_owned()
    } else if t == ARCH_TYPE_CLEVER_ISA {
        let r = "Clever-ISA 1.".to_owned().concat(u32_to_dec(v).as_str());
        r
    } else {
        let r = "Unknown Arch ".to_owned().concat(u32_to_dec(t).as_str());
        r
    }
}

/// The committed text of a slot's primary field.
pub open spec fn slot_text(s: SubRequest) -> Seq<char> {
    match s {
        SubRequest::KernelVendor { vendor, .. } => vendor.content@,
        SubRequest::OsVersion { vendor, .. } => vendor.content@,
        SubRequest::ComputerName { hostname, .. } => hostname.content@,
        SubRequest::ArchInfo { .. } => Seq::empty(),
    }
}

/// A slot's major version field.
pub open spec fn slot_major(s: SubRequest) -> u32 {
    match s {
        SubRequest::KernelVendor { major, .. } => major,
        SubRequest::OsVersion { major, .. } => major,
        _ => 0,
    }
}

/// A slot's minor version field.
pub open spec fn slot_minor(s: SubRequest) -> u32 {
    match s {
        SubRequest::KernelVendor { minor, .. } => minor,
        SubRequest::OsVersion { minor, .. } => minor,
        _ => 0,
    }
}

/// A slot's architecture tag.
pub open spec fn slot_arch_type(s: SubRequest) -> u32 {
    match s {
        SubRequest::ArchInfo { arch_type, .. } => arch_type,
        _ => 0,
    }
}

/// A slot's architecture version.
pub open spec fn slot_arch_version(s: SubRequest) -> u32 {
    match s {
        SubRequest::ArchInfo { arch_version, .. } => arch_version,
        _ => 0,
    }
}

/// The index an optional plan entry names; zero when absent.
pub open spec fn opt_idx(o: Option<usize>) -> int {
    match o {
        Some(i) => i as int,
        None => 0,
    }
}

/// The text one mode prints, read from the answered batch.
pub open spec fn piece_spec(m: PrintMode, p: Plan) -> Seq<char> {
    let slots = p.query.slots@;
    match m {
        PrintMode::KernelName => "Lilium"@,
        PrintMode::NodeName => slot_text(slots[opt_idx(p.cname_index)]),
        PrintMode::KernelRelease => {
            let s = slots[opt_idx(p.kvendor_index)];
            slot_text(s) + " "@ + dec_spec(slot_major(s) as nat) + "."@ + dec_spec(
                slot_minor(s) as nat,
            )
        },
        PrintMode::KernelVersion => {
            let k = slots[opt_idx(p.kvendor_index)];
            let o = slots[opt_idx(p.osver_index)];
            dec_spec(slot_major(o) as nat) + "."@ + dec_spec(slot_minor(o) as nat) + " ("@
                + dec_spec(slot_major(k) as nat) + "."@ + dec_spec(slot_minor(k) as nat) + ")"@
        },
        PrintMode::Machine => machine_name_spec(slot_arch_type(slots[opt_idx(p.arch_index)])),
        PrintMode::Processor => processor_name_spec(
            slot_arch_type(slots[opt_idx(p.arch_index)]),
            slot_arch_version(slots[opt_idx(p.arch_index)]),
        ),
        PrintMode::HardwarePlatform => processor_name_spec(
            slot_arch_type(slots[opt_idx(p.arch_index)]),
            slot_arch_version(slots[opt_idx(p.arch_index)]),
        ),
        PrintMode::Os => slot_text(slots[opt_idx(p.osver_index)]),
    }
}

/// The whole output line: each mode's text with a trailing space, then the
/// line break.
pub open spec fn render_spec(ms: Seq<PrintMode>, p: Plan) -> Seq<char>
    decreases ms.len(),
{
    if ms.len() == 0 {
        "\n"@
    } else {
        piece_spec(ms[0], p) + " "@ + render_spec(ms.skip(1), p)
    }
}

/// Renders one mode from the answered batch.
fn piece(m: PrintMode, p: &Plan, Ghost(ms): Ghost<Seq<PrintMode>>) -> (r: String)
    requires
        plan_matches(*p, ms),
        has_mode(ms, m),
    ensures
        r@ == piece_spec(m, *p),
{
    match m {
        PrintMode::KernelName => "Lilium".to_owned(),
        PrintMode::NodeName => {
            let i = match p.cname_index {
                Some(i) => i,
                None => unreached(),
            };
            match &p.query.slots[i] {
                SubRequest::ComputerName { hostname, .. } => hostname.content.clone(),
                _ => unreached(),
            }
        },
        PrintMode::KernelRelease => {
            let i = match p.kvendor_index {
                Some(i) => i,
                None => unreached(),
            };
            match &p.query.slots[i] {
                SubRequest::KernelVendor { vendor, major, minor } => {
                    let r = vendor.content.clone().concat(" ").concat(
                        u32_to_dec(*major).as_str(),
                    ).concat(".").concat(u32_to_dec(*minor).as_str());
                    assert(r@ =~= piece_spec(m, *p));
                    r
                },
                _ => unreached(),
            }
        },
        PrintMode::KernelVersion => {
            let i = match p.kvendor_index {
                Some(i) => i,
                None => unreached(),
            };
            let j = match p.osver_index {
                Some(j) => j,
                None => unreached(),
            };
            let (km, kn) = match &p.query.slots[i] {
                SubRequest::KernelVendor { major, minor, .. } => (*major, *minor),
                _ => unreached(),
            };
            let (om, on) = match &p.query.slots[j] {
                SubRequest::OsVersion { major, minor, .. } => (*major, *minor),
                _ => unreached(),
            };
            let r = u32_to_dec(om).concat(".").concat(u32_to_dec(on).as_str()).concat(
                " (",
            ).concat(u32_to_dec(km).as_str()).concat(".").concat(u32_to_dec(kn).as_str()).concat(
                ")",
            );
            assert(r@ =~= piece_spec(m, *p));
            r
        },
        PrintMode::Machine => {
            let i = match p.arch_index {
                Some(i) => i,
                None => unreached(),
            };
            let t = match &p.query.slots[i] {
                SubRequest::ArchInfo { arch_type, .. } => *arch_type,
                _ => unreached(),
            };
            machine_name(t)
        },
        PrintMode::Processor => {
            let i = match p.arch_index {
                Some(i) => i,
                None => unreached(),
            };
            let (t, v) = match &p.query.slots[i] {
                SubRequest::ArchInfo { arch_type, arch_version } => (*arch_type, *arch_version),
                _ => unreached(),
            };
            processor_name(t, v)
        },
        PrintMode::HardwarePlatform => {
            let i = match p.arch_index {
                Some(i) => i,
                None => unreached(),
            };
            let (t, v) = match &p.query.slots[i] {
                SubRequest::ArchInfo { arch_type, arch_version } => (*arch_type, *arch_version),
                _ => unreached(),
            };
            processor_name(t, v)
        },
        PrintMode::Os => {
            let i = match p.osver_index {
                Some(i) => i,
                None => unreached(),
            };
            match &p.query.slots[i] {
                SubRequest::OsVersion { vendor, .. } => vendor.content.clone(),
                _ => unreached(),
            }
        },
    }
}

/// Renders the whole output line from the answered batch; exactly
/// `render_spec` over the requested modes.
#[verifier::loop_isolation(false)]
pub fn render(modes: &Vec<PrintMode>, p: &Plan) -> (r: String)
    requires
        plan_matches(*p, modes@),
    ensures
        r@ == render_spec(modes@, *p),
{
    let mut out = String::new();
    let mut i: usize = 0;
    let n = modes.len();
    proof {
        assert(modes@.skip(0) =~= modes@);
    }
    while i < n
        invariant
            i <= n,
            out@ + render_spec(modes@.skip(i as int), *p) == render_spec(modes@, *p),
        decreases n - i,
    {
        proof {
            assert(modes@.skip(i as int)[0] == modes@[i as int]);
            assert(modes@.skip(i as int).skip(1) =~= modes@.skip(i + 1));
        }
        let pc = piece(modes[i], p, Ghost(modes@));
        let out2 = out.concat(pc.as_str()).concat(" ");
        proof {
            assert(out2@ + render_spec(modes@.skip(i + 1), *p) =~= out@ + render_spec(
                modes@.skip(i as int),
                *p,
            ));
        }
        out = out2;
        i = i + 1;
    }
    proof {
        assert(modes@.skip(n as int) =~= Seq::<PrintMode>::empty());
    }
    let r = out.concat("\n");
    r
}

} // verus!
