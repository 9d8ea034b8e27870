use ocpp_backend::action::OcppActionEnum;
use ocpp_backend::correlation::{deadline_at, CallTable, ErrorKind, PendingCall};

fn pending(serial: u64, action: OcppActionEnum, at: i64, deadline: i64) -> PendingCall {
    PendingCall {
        message_id: serial.to_string(),
        serial,
        action,
        enqueued_at: at,
        deadline,
    }
}

#[test]
fn deadline_is_the_sending_time_plus_the_timeout() {
    assert_eq!(deadline_at(1_000, 30_000), 31_000);
    assert_eq!(deadline_at(0, 0), 0);
    assert_eq!(deadline_at(-500, 200), -300);
    assert_eq!(deadline_at(1_700_000_000_000, u32::MAX), 1_700_000_000_000 + 4_294_967_295);
}

#[test]
fn deadline_stops_at_the_largest_time() {
    assert_eq!(deadline_at(i64::MAX, 1), i64::MAX);
    assert_eq!(deadline_at(i64::MAX - 5, 10), i64::MAX);
    assert_eq!(deadline_at(i64::MAX - 5, 5), i64::MAX);
    assert_eq!(deadline_at(i64::MAX - 5, 4), i64::MAX - 1);
    assert_eq!(deadline_at(i64::MIN, 0), i64::MIN);
}

#[test]
fn a_new_table_is_empty() {
    let table = CallTable::new();
    assert_eq!(table.len(), 0);
    assert!(!table.is_pending("1"));
    assert_eq!(table.action_of("1"), None);
}

#[test]
fn issue_gives_each_call_a_fresh_message_id() {
    let mut table = CallTable::new();
    let first = table.issue(OcppActionEnum::Reset, 1_000, 30_000).unwrap();
    let second = table.issue(OcppActionEnum::ClearCache, 2_000, 500).unwrap();
    assert_eq!(first, pending(1, OcppActionEnum::Reset, 1_000, 31_000));
    assert_eq!(second, pending(2, OcppActionEnum::ClearCache, 2_000, 2_500));
    assert_ne!(first.message_id, second.message_id);
    assert_eq!(table.len(), 2);
    assert!(table.is_pending("1"));
    assert!(table.is_pending("2"));
    assert!(!table.is_pending("3"));
    assert_eq!(table.action_of("1"), Some(OcppActionEnum::Reset));
    assert_eq!(table.action_of("2"), Some(OcppActionEnum::ClearCache));
}

#[test]
fn issue_never_reuses_a_message_id() {
    let mut table = CallTable::new();
    let first = table.issue(OcppActionEnum::Reset, 0, 10).unwrap();
    assert_eq!(table.resolve(&first.message_id), Some(first.clone()));
    let second = table.issue(OcppActionEnum::Reset, 0, 10).unwrap();
    assert_ne!(first.message_id, second.message_id);
    assert_eq!(second.message_id, "2");
    let mut seen: Vec<String> = vec![first.message_id, second.message_id];
    for _ in 0..50 {
        let next = table.issue(OcppActionEnum::Reset, 0, 10).unwrap();
        assert!(!seen.contains(&next.message_id));
        seen.push(next.message_id);
    }
}

#[test]
fn resolve_takes_the_call_out_of_the_table() {
    let mut table = CallTable::new();
    let first = table.issue(OcppActionEnum::Reset, 1_000, 30_000).unwrap();
    let second = table.issue(OcppActionEnum::ClearCache, 2_000, 500).unwrap();
    assert_eq!(table.resolve("1"), Some(first));
    assert_eq!(table.len(), 1);
    assert!(!table.is_pending("1"));
    assert!(table.is_pending("2"));
    assert_eq!(table.resolve("2"), Some(second));
    assert_eq!(table.len(), 0);
}

#[test]
fn resolve_of_a_message_id_that_was_never_issued_changes_nothing() {
    let mut table = CallTable::new();
    let first = table.issue(OcppActionEnum::Reset, 1_000, 30_000).unwrap();
    assert_eq!(table.resolve("99"), None);
    assert_eq!(table.resolve(""), None);
    assert_eq!(table.resolve("01"), None);
    assert_eq!(table.len(), 1);
    assert!(table.is_pending("1"));
    assert_eq!(table.resolve("1"), Some(first));
}

#[test]
fn a_second_resolve_of_the_same_message_id_is_ignored() {
    let mut table = CallTable::new();
    let first = table.issue(OcppActionEnum::Reset, 1_000, 30_000).unwrap();
    table.issue(OcppActionEnum::ClearCache, 2_000, 500).unwrap();
    assert_eq!(table.resolve("1"), Some(first));
    assert_eq!(table.resolve("1"), None);
    assert_eq!(table.len(), 1);
    assert!(table.is_pending("2"));
}

#[test]
fn expire_takes_out_the_calls_whose_deadline_has_come() {
    let mut table = CallTable::new();
    let first = table.issue(OcppActionEnum::Reset, 1_000, 1_000).unwrap();
    let second = table.issue(OcppActionEnum::ClearCache, 1_000, 5_000).unwrap();
    let third = table.issue(OcppActionEnum::UnlockConnector, 1_500, 500).unwrap();
    assert_eq!(table.expire(1_999), vec![]);
    assert_eq!(table.len(), 3);
    assert_eq!(table.expire(2_000), vec![first, third]);
    assert_eq!(table.len(), 1);
    assert!(table.is_pending("2"));
    assert_eq!(table.expire(2_000), vec![]);
    assert_eq!(table.expire(6_000), vec![second]);
    assert_eq!(table.len(), 0);
}

#[test]
fn an_answer_that_comes_after_the_timeout_resolves_nothing() {
    let mut table = CallTable::new();
    let first = table.issue(OcppActionEnum::Reset, 1_000, 1_000).unwrap();
    table.issue(OcppActionEnum::ClearCache, 1_000, 5_000).unwrap();
    assert_eq!(table.expire(3_000), vec![first]);
    assert_eq!(table.resolve("1"), None);
    assert_eq!(table.len(), 1);
    assert_eq!(table.expire(3_000), vec![]);
}

#[test]
fn cancel_all_empties_the_table() {
    let mut table = CallTable::new();
    let first = table.issue(OcppActionEnum::Reset, 1_000, 1_000).unwrap();
    let second = table.issue(OcppActionEnum::ClearCache, 1_000, 5_000).unwrap();
    assert_eq!(table.cancel_all(), vec![first, second]);
    assert_eq!(table.len(), 0);
    assert_eq!(table.cancel_all(), vec![]);
    assert_eq!(table.resolve("1"), None);
    let third = table.issue(OcppActionEnum::Reset, 0, 0).unwrap();
    assert_eq!(third.message_id, "3");
}

#[test]
fn error_kinds_are_told_apart() {
    assert_ne!(ErrorKind::Timeout, ErrorKind::Cancelled);
    assert_ne!(ErrorKind::UnsolicitedResponse, ErrorKind::MalformedFrame);
}

#[test]
fn a_table_can_go_on_from_a_serial_number() {
    let mut table = CallTable::starting_at(41);
    assert_eq!(table.len(), 0);
    assert_eq!(table.issue(OcppActionEnum::Reset, 0, 10).unwrap().message_id, "41");
    assert_eq!(table.issue(OcppActionEnum::Reset, 0, 10).unwrap().message_id, "42");
}

#[test]
fn issue_fails_when_every_serial_number_has_been_used() {
    let mut table = CallTable::starting_at(u64::MAX - 1);
    let last = table.issue(OcppActionEnum::Reset, 0, 10).unwrap();
    assert_eq!(last.message_id, "18446744073709551614");
    assert_eq!(table.issue(OcppActionEnum::Reset, 0, 10), Err(ErrorKind::MessageIdsExhausted));
    assert_eq!(table.issue(OcppActionEnum::Reset, 0, 10), Err(ErrorKind::MessageIdsExhausted));
    assert_eq!(table.len(), 1);
    assert_eq!(table.resolve("18446744073709551614"), Some(last));
    assert_eq!(table.issue(OcppActionEnum::Reset, 0, 10), Err(ErrorKind::MessageIdsExhausted));
}
