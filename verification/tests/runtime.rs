//! Startup capture, vector views, termination protocol and fault bridge.

use ministd::errors::RtError;
use ministd::fault::{fault_message, fault_record, RUNTIME_FAULT_CLASS};
use ministd::start::ProcessState;
use ministd::term::{Report, Termination, FAILURE_EXIT_CODE};

fn strings(items: &[&str]) -> Vec<String> {
    items.iter().map(|s| s.to_string()).collect()
}

#[test]
fn capture_stores_vectors_and_program_name() {
    let ps = ProcessState::capture(strings(&["uname", "-a"]), strings(&["PATH=/bin"]));
    assert_eq!(ps.prg_name.as_deref(), Some("uname"));
    assert_eq!(ps.args.len(), 2);
    assert_eq!(ps.env.len(), 1);
    assert_eq!(ps.program_name(), "uname");
}

#[test]
fn capture_without_arguments_skips_program_name() {
    let ps = ProcessState::capture(strings(&[]), strings(&[]));
    assert!(ps.prg_name.is_none());
    assert_eq!(ps.program_name(), "ministd");
}

#[test]
fn args_view_yields_each_element_then_stops() {
    let ps = ProcessState::capture(strings(&["prog", "x", "y"]), strings(&[]));
    let mut it = ps.args();
    assert_eq!(it.next().as_deref(), Some("prog"));
    assert_eq!(it.next().as_deref(), Some("x"));
    assert_eq!(it.next().as_deref(), Some("y"));
    assert!(it.next().is_none());
    assert!(it.next().is_none());
}

#[test]
fn args_view_drain_yields_exactly_n_elements() {
    let ps = ProcessState::capture(strings(&["prog", "a", "b", "c"]), strings(&[]));
    let mut it = ps.args();
    let all = it.drain();
    assert_eq!(all, strings(&["prog", "a", "b", "c"]));
    assert!(it.next().is_none());
}

#[test]
fn fresh_views_restart_and_agree() {
    let ps = ProcessState::capture(strings(&["prog", "one"]), strings(&["A=1", "B=2"]));
    let first = ps.args().drain();
    let second = ps.args().drain();
    assert_eq!(first, second);
    let e1 = ps.vars().drain();
    let e2 = ps.vars().drain();
    assert_eq!(e1.len(), e2.len());
    for (x, y) in e1.iter().zip(e2.iter()) {
        match (x, y) {
            (Ok(a), Ok(b)) => assert_eq!(a, b),
            (Err(_), Err(_)) => {}
            _ => panic!("cursors disagreed"),
        }
    }
}

#[test]
fn environment_view_splits_one_pair() {
    let ps = ProcessState::capture(strings(&[]), strings(&["PATH=/bin"]));
    let mut it = ps.vars();
    match it.next() {
        Some(Ok((name, value))) => {
            assert_eq!(name, "PATH");
            assert_eq!(value, "/bin");
        }
        other => panic!("expected one pair, got {:?}", other.is_some()),
    }
    assert!(it.next().is_none());
}

#[test]
fn environment_view_splits_at_first_separator_only() {
    let ps = ProcessState::capture(strings(&[]), strings(&["KEY=a=b"]));
    let mut it = ps.vars();
    match it.next() {
        Some(Ok((name, value))) => {
            assert_eq!(name, "KEY");
            assert_eq!(value, "a=b");
        }
        _ => panic!("expected a pair"),
    }
}

#[test]
fn environment_entry_without_separator_is_a_decode_error() {
    let ps = ProcessState::capture(strings(&[]), strings(&["NOEQUALS"]));
    let mut it = ps.vars();
    match it.next() {
        Some(Err(RtError::Decode)) => {}
        _ => panic!("expected a decode error"),
    }
}

#[test]
fn var_finds_first_match() {
    let ps = ProcessState::capture(strings(&[]), strings(&["A=1", "B=2", "B=3"]));
    assert_eq!(ps.var("B").unwrap().as_deref(), Some("2"));
    assert_eq!(ps.var("A").unwrap().as_deref(), Some("1"));
    assert!(ps.var("C").unwrap().is_none());
}

#[test]
fn var_surfaces_malformed_entry_before_match() {
    let ps = ProcessState::capture(strings(&[]), strings(&["broken", "A=1"]));
    assert!(matches!(ps.var("A"), Err(RtError::Decode)));
}

#[test]
fn bare_success_maps_to_zero() {
    let r: Report = ().report("tool");
    assert_eq!(r.code, 0);
    assert!(r.diagnostic.is_none());
}

#[test]
fn explicit_integer_passes_through() {
    let r: Report = 42i32.report("tool");
    assert_eq!(r.code, 42);
    assert!(r.diagnostic.is_none());
}

#[test]
fn ok_payload_reports_recursively() {
    let r: Report = Ok::<i32, RtError>(7).report("tool");
    assert_eq!(r.code, 7);
    assert!(r.diagnostic.is_none());
}

#[test]
fn failure_maps_to_fixed_code_and_one_line() {
    let e = RtError::InvalidInput { message: "Unknown Option --x".to_string() };
    let r: Report = Err::<(), RtError>(e).report("uname");
    assert_eq!(r.code, FAILURE_EXIT_CODE);
    assert_eq!(r.code, -1);
    assert_eq!(r.diagnostic.as_deref(), Some("uname: Unknown Option --x"));
}

#[test]
fn os_error_message_carries_the_code() {
    let e = RtError::Os { code: -7 };
    assert_eq!(e.message(), "os error -7");
    let r: Report = Err::<(), RtError>(RtError::Os { code: -7 }).report("arch");
    assert_eq!(r.diagnostic.as_deref(), Some("arch: os error -7"));
}

#[test]
fn fault_record_is_fixed() {
    let rec = fault_record();
    assert_eq!(rec.class_id, RUNTIME_FAULT_CLASS);
    assert_eq!(rec.info, 0);
    assert_eq!(rec.reason, 0);
}

#[test]
fn fault_message_names_the_fault() {
    assert_eq!(fault_message("index out of bounds"), "Panicked at index out of bounds");
}
