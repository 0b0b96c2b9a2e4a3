//! The batched query protocol: one-round success, shortfall and regrowth,
//! hard errors, and the convergence bound.

use ministd::errors::RtError;
use ministd::query::{
    FieldReply, Flow, Query, QueryReply, QueryStatus, SlotReply, SubRequest, TextBuf,
    RETRY_BOUND,
};

fn one_computer_name_query() -> Query {
    Query::new(vec![SubRequest::ComputerName {
        hostname: TextBuf::new(),
        label: TextBuf::new(),
        display: TextBuf::new(),
    }])
}

fn computer_name_caps(q: &Query) -> (usize, usize, usize) {
    match &q.slots[0] {
        SubRequest::ComputerName { hostname, label, display } => {
            (hostname.cap, label.cap, display.cap)
        }
        _ => panic!("wrong slot"),
    }
}

#[test]
fn success_on_first_call_means_one_round_trip() {
    let mut q = one_computer_name_query();
    let reply = QueryReply {
        status: QueryStatus::Satisfied,
        slots: vec![SlotReply::ComputerName {
            hostname: FieldReply::Fitted("host".to_string()),
            label: FieldReply::Fitted(String::new()),
            display: FieldReply::Fitted(String::new()),
        }],
    };
    let flow = q.apply_reply(&reply);
    assert!(matches!(flow, Flow::Done));
    match &q.slots[0] {
        SubRequest::ComputerName { hostname, .. } => assert_eq!(hostname.content, "host"),
        _ => panic!("wrong slot"),
    }
    assert_eq!(q.retries_left, RETRY_BOUND);
}

#[test]
fn shortfall_of_nine_regrows_to_nine_and_finishes() {
    let mut q = one_computer_name_query();
    assert_eq!(computer_name_caps(&q), (0, 0, 0));

    let first = QueryReply {
        status: QueryStatus::InsufficientLength,
        slots: vec![SlotReply::ComputerName {
            hostname: FieldReply::Undersized(9),
            label: FieldReply::Fitted(String::new()),
            display: FieldReply::Fitted(String::new()),
        }],
    };
    let flow = q.apply_reply(&first);
    assert!(matches!(flow, Flow::Retry));
    assert_eq!(computer_name_caps(&q), (9, 0, 0));

    let second = QueryReply {
        status: QueryStatus::Satisfied,
        slots: vec![SlotReply::ComputerName {
            hostname: FieldReply::Fitted("hostname!".to_string()),
            label: FieldReply::Fitted(String::new()),
            display: FieldReply::Fitted(String::new()),
        }],
    };
    let flow = q.apply_reply(&second);
    assert!(matches!(flow, Flow::Done));
    match &q.slots[0] {
        SubRequest::ComputerName { hostname, label, display } => {
            assert_eq!(hostname.content.len(), 9);
            assert_eq!(hostname.content, "hostname!");
            assert_eq!(hostname.cap, 9);
            assert_eq!(label.content, "");
            assert_eq!(display.content, "");
        }
        _ => panic!("wrong slot"),
    }
}

#[test]
fn already_fit_data_survives_a_retry() {
    let mut q = Query::new(vec![
        SubRequest::KernelVendor { vendor: TextBuf::new(), major: 0, minor: 0 },
        SubRequest::OsVersion { vendor: TextBuf::new(), major: 0, minor: 0 },
    ]);
    let first = QueryReply {
        status: QueryStatus::InsufficientLength,
        slots: vec![
            SlotReply::KernelVendor {
                vendor: FieldReply::Fitted("acme".to_string()),
                major: 1,
                minor: 2,
            },
            SlotReply::OsVersion { vendor: FieldReply::Undersized(6), major: 3, minor: 4 },
        ],
    };
    assert!(matches!(q.apply_reply(&first), Flow::Retry));
    match &q.slots[0] {
        SubRequest::KernelVendor { vendor, major, minor } => {
            assert_eq!(vendor.content, "acme");
            assert_eq!(*major, 1);
            assert_eq!(*minor, 2);
        }
        _ => panic!("wrong slot"),
    }
    match &q.slots[1] {
        SubRequest::OsVersion { vendor, .. } => {
            assert_eq!(vendor.cap, 6);
            assert_eq!(vendor.content, "");
        }
        _ => panic!("wrong slot"),
    }
}

#[test]
fn capacities_never_shrink() {
    let mut q = one_computer_name_query();
    let grow = QueryReply {
        status: QueryStatus::InsufficientLength,
        slots: vec![SlotReply::ComputerName {
            hostname: FieldReply::Undersized(12),
            label: FieldReply::Undersized(3),
            display: FieldReply::Fitted(String::new()),
        }],
    };
    assert!(matches!(q.apply_reply(&grow), Flow::Retry));
    assert_eq!(computer_name_caps(&q), (12, 3, 0));

    let grow_again = QueryReply {
        status: QueryStatus::InsufficientLength,
        slots: vec![SlotReply::ComputerName {
            hostname: FieldReply::Undersized(15),
            label: FieldReply::Fitted("ok!".to_string()),
            display: FieldReply::Fitted(String::new()),
        }],
    };
    assert!(matches!(q.apply_reply(&grow_again), Flow::Retry));
    assert_eq!(computer_name_caps(&q), (15, 3, 0));
}

#[test]
fn hard_error_propagates_immediately() {
    let mut q = one_computer_name_query();
    let reply = QueryReply { status: QueryStatus::Failed(-38), slots: vec![] };
    match q.apply_reply(&reply) {
        Flow::Fail(RtError::Os { code }) => assert_eq!(code, -38),
        _ => panic!("expected the propagated error"),
    }
    assert_eq!(computer_name_caps(&q), (0, 0, 0));
    assert_eq!(q.retries_left, RETRY_BOUND);
}

#[test]
fn mismatched_reply_is_rejected() {
    let mut q = one_computer_name_query();
    let reply = QueryReply {
        status: QueryStatus::Satisfied,
        slots: vec![SlotReply::ArchInfo { arch_type: 1, arch_version: 1 }],
    };
    assert!(matches!(q.apply_reply(&reply), Flow::Fail(RtError::Protocol)));
    let reply = QueryReply { status: QueryStatus::Satisfied, slots: vec![] };
    assert!(matches!(q.apply_reply(&reply), Flow::Fail(RtError::Protocol)));
}

#[test]
fn endless_growth_stops_at_the_retry_bound() {
    let mut q = one_computer_name_query();
    let mut rounds = 0u32;
    loop {
        let reply = QueryReply {
            status: QueryStatus::InsufficientLength,
            slots: vec![SlotReply::ComputerName {
                hostname: FieldReply::Undersized((rounds + 1) as usize),
                label: FieldReply::Fitted(String::new()),
                display: FieldReply::Fitted(String::new()),
            }],
        };
        match q.apply_reply(&reply) {
            Flow::Retry => rounds += 1,
            Flow::Fail(RtError::DidNotConverge) => break,
            _ => panic!("unexpected flow"),
        }
        assert!(rounds <= RETRY_BOUND);
    }
    assert_eq!(rounds, RETRY_BOUND);
}
