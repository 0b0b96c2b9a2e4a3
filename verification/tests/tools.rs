//! The tools' logic: option parsing, batch planning, rendering, the
//! machine-printing tool and the shared help/version preamble.

use ministd::arch::{arch_command, arch_report, ArchAction};
use ministd::errors::RtError;
use ministd::help::{help_version, HelpVersionOutcome};
use ministd::query::{FieldReply, Flow, QueryReply, QueryStatus, SlotReply, SubRequest};
use ministd::text::{i64_to_dec, u32_to_dec, u64_to_dec};
use ministd::uname::{
    build_requests, parse_opts, render, PrintMode, UnameCommand, ARCH_TYPE_CLEVER_ISA,
    ARCH_TYPE_X86_64,
};

fn strings(items: &[&str]) -> Vec<String> {
    items.iter().map(|s| s.to_string()).collect()
}

#[test]
fn decimal_formatting_is_exact() {
    assert_eq!(u64_to_dec(0), "0");
    assert_eq!(u64_to_dec(1234), "1234");
    assert_eq!(u32_to_dec(4294967295), "4294967295");
    assert_eq!(i64_to_dec(-5), "-5");
    assert_eq!(i64_to_dec(7), "7");
    assert_eq!(i64_to_dec(i64::MIN), "-9223372036854775808");
}

#[test]
fn no_arguments_defaults_to_kernel_name() {
    match parse_opts(&strings(&[])) {
        Ok(UnameCommand::Print(modes)) => assert_eq!(modes, vec![PrintMode::KernelName]),
        _ => panic!("expected the default mode"),
    }
}

#[test]
fn all_flag_expands_in_order() {
    match parse_opts(&strings(&["-a"])) {
        Ok(UnameCommand::Print(modes)) => assert_eq!(
            modes,
            vec![
                PrintMode::KernelName,
                PrintMode::NodeName,
                PrintMode::KernelRelease,
                PrintMode::KernelVersion,
                PrintMode::Machine,
                PrintMode::Processor,
                PrintMode::HardwarePlatform,
                PrintMode::Os,
            ]
        ),
        _ => panic!("expected the full mode list"),
    }
}

#[test]
fn combined_and_repeated_flags_accumulate() {
    match parse_opts(&strings(&["-sn", "-r"])) {
        Ok(UnameCommand::Print(modes)) => assert_eq!(
            modes,
            vec![PrintMode::KernelName, PrintMode::NodeName, PrintMode::KernelRelease]
        ),
        _ => panic!("expected three modes"),
    }
}

#[test]
fn version_and_help_stop_the_scan() {
    assert!(matches!(parse_opts(&strings(&["--version", "-a"])), Ok(UnameCommand::Version)));
    assert!(matches!(parse_opts(&strings(&["--help"])), Ok(UnameCommand::Help)));
}

#[test]
fn unknown_long_option_is_rejected_with_its_name() {
    match parse_opts(&strings(&["--frobnicate"])) {
        Err(RtError::InvalidInput { message }) => {
            assert_eq!(message, "Unknown Option --frobnicate")
        }
        _ => panic!("expected a rejection"),
    }
}

#[test]
fn unknown_flag_character_is_rejected() {
    match parse_opts(&strings(&["-sx"])) {
        Err(RtError::InvalidInput { message }) => assert_eq!(message, "Unknown Option -x"),
        _ => panic!("expected a rejection"),
    }
}

#[test]
fn stray_argument_is_rejected() {
    match parse_opts(&strings(&["here"])) {
        Err(RtError::InvalidInput { message }) => assert_eq!(message, "Unknown Argument here"),
        _ => panic!("expected a rejection"),
    }
}

#[test]
fn plan_contains_exactly_the_needed_slots() {
    let plan = build_requests(&vec![PrintMode::KernelName]);
    assert_eq!(plan.query.slots.len(), 0);
    assert!(plan.kvendor_index.is_none());

    let plan = build_requests(&vec![PrintMode::NodeName, PrintMode::KernelVersion]);
    assert_eq!(plan.query.slots.len(), 3);
    assert_eq!(plan.kvendor_index, Some(0));
    assert_eq!(plan.osver_index, Some(1));
    assert_eq!(plan.cname_index, Some(2));
    assert!(plan.arch_index.is_none());
    assert!(matches!(plan.query.slots[0], SubRequest::KernelVendor { .. }));
    assert!(matches!(plan.query.slots[1], SubRequest::OsVersion { .. }));
    assert!(matches!(plan.query.slots[2], SubRequest::ComputerName { .. }));
}

#[test]
fn rendered_line_reads_the_answered_batch() {
    let modes = vec![PrintMode::KernelName, PrintMode::NodeName, PrintMode::Machine];
    let mut plan = build_requests(&modes);
    assert_eq!(plan.query.slots.len(), 2);
    let reply = QueryReply {
        status: QueryStatus::Satisfied,
        slots: vec![
            SlotReply::ComputerName {
                hostname: FieldReply::Fitted("box".to_string()),
                label: FieldReply::Fitted(String::new()),
                display: FieldReply::Fitted(String::new()),
            },
            SlotReply::ArchInfo { arch_type: ARCH_TYPE_X86_64, arch_version: 1 },
        ],
    };
    assert!(matches!(plan.query.apply_reply(&reply), Flow::Done));
    assert_eq!(render(&modes, &plan), "Lilium box x86_64 \n");
}

#[test]
fn release_and_version_lines_use_both_slots() {
    let modes = vec![PrintMode::KernelRelease, PrintMode::KernelVersion];
    let mut plan = build_requests(&modes);
    let reply = QueryReply {
        status: QueryStatus::Satisfied,
        slots: vec![
            SlotReply::KernelVendor {
                vendor: FieldReply::Fitted("acme".to_string()),
                major: 2,
                minor: 5,
            },
            SlotReply::OsVersion {
                vendor: FieldReply::Fitted("lilium".to_string()),
                major: 1,
                minor: 0,
            },
        ],
    };
    assert!(matches!(plan.query.apply_reply(&reply), Flow::Done));
    assert_eq!(render(&modes, &plan), "acme 2.5 1.0 (2.5) \n");
}

#[test]
fn processor_names_follow_the_version_rules() {
    let modes = vec![PrintMode::Processor];
    let mut plan = build_requests(&modes);
    let reply = QueryReply {
        status: QueryStatus::Satisfied,
        slots: vec![SlotReply::ArchInfo { arch_type: ARCH_TYPE_X86_64, arch_version: 3 }],
    };
    assert!(matches!(plan.query.apply_reply(&reply), Flow::Done));
    assert_eq!(render(&modes, &plan), "x86_64v3 \n");

    let mut plan = build_requests(&modes);
    let reply = QueryReply {
        status: QueryStatus::Satisfied,
        slots: vec![SlotReply::ArchInfo { arch_type: ARCH_TYPE_CLEVER_ISA, arch_version: 2 }],
    };
    assert!(matches!(plan.query.apply_reply(&reply), Flow::Done));
    assert_eq!(render(&modes, &plan), "Clever-ISA 1.2 \n");

    let mut plan = build_requests(&modes);
    let reply = QueryReply {
        status: QueryStatus::Satisfied,
        slots: vec![SlotReply::ArchInfo { arch_type: 999, arch_version: 1 }],
    };
    assert!(matches!(plan.query.apply_reply(&reply), Flow::Done));
    assert_eq!(render(&modes, &plan), "Unknown Arch 999 \n");
}

#[test]
fn arch_tool_decides_from_its_first_argument() {
    assert!(matches!(arch_command("arch", &strings(&[])), ArchAction::RunQuery));
    match arch_command("arch", &strings(&["--version"])) {
        ArchAction::Exit { output, code } => {
            assert_eq!(output, "arch (lilium-tools) v0.1.0\n");
            assert_eq!(code, 0);
        }
        _ => panic!("expected an exit"),
    }
    match arch_command("arch", &strings(&["--help"])) {
        ArchAction::Exit { output, code } => {
            assert!(output.starts_with("Usage: arch [OPTION]\n"));
            assert_eq!(code, 0);
        }
        _ => panic!("expected an exit"),
    }
    match arch_command("arch", &strings(&["-x"])) {
        ArchAction::Exit { output, code } => {
            assert_eq!(output, "arch: Unknown option -x\n");
            assert_eq!(code, 1);
        }
        _ => panic!("expected an exit"),
    }
}

#[test]
fn arch_report_names_the_machine() {
    assert_eq!(arch_report(ARCH_TYPE_X86_64), "x86_64\n");
    assert_eq!(arch_report(ARCH_TYPE_CLEVER_ISA), "clever\n");
    assert_eq!(arch_report(424242), "**UNKNOWN ARCH 424242**\n");
}

#[test]
fn help_version_preamble() {
    match help_version(&strings(&["true", "--version"]), "true", "successfully") {
        HelpVersionOutcome::Exit { output } => assert_eq!(output, "true v0.1.0\n"),
        _ => panic!("expected an exit"),
    }
    match help_version(&strings(&["true", "--help"]), "true", "successfully") {
        HelpVersionOutcome::Exit { output } => {
            assert!(output.starts_with("Usage: true [OPTIONS...] [--] [ARGS...]\n"));
            assert!(output.contains("Trivially exits successfully\n"));
        }
        _ => panic!("expected an exit"),
    }
    assert!(matches!(
        help_version(&strings(&["true"]), "true", "successfully"),
        HelpVersionOutcome::Continue
    ));
    assert!(matches!(
        help_version(&strings(&["true", "other"]), "true", "successfully"),
        HelpVersionOutcome::Continue
    ));
}
