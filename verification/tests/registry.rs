use ocpp_backend::action::OcppActionEnum;
use ocpp_backend::clock::Timestamp;
use ocpp_backend::correlation::{CallOutcome, Completion};
use ocpp_backend::frame::{encode, OcppMessageType};
use ocpp_backend::json::Json;
use ocpp_backend::registry::{AlreadyConnected, ConnectionRegistry};
use ocpp_backend::dispatch::{HandlerResult, RegistrationStatus, SessionAction, SessionState};

fn midnight() -> Timestamp {
    Timestamp::from_millis(1_704_067_200_000).unwrap()
}

fn later(millis: i64) -> Timestamp {
    Timestamp::from_millis(1_704_067_200_000 + millis).unwrap()
}

#[test]
fn a_new_registry_has_no_session() {
    let registry = ConnectionRegistry::new();
    assert_eq!(registry.len(), 0);
    assert_eq!(registry.session_state("CP-1"), None);
}

#[test]
fn connect_registers_an_unregistered_session() {
    let mut registry = ConnectionRegistry::new();
    assert_eq!(registry.connect("CP-1".to_string(), 60, &midnight()), Ok(()));
    assert_eq!(registry.connect("CP-2".to_string(), 60, &midnight()), Ok(()));
    assert_eq!(registry.len(), 2);
    assert_eq!(registry.session_state("CP-1"), Some(SessionState::Unregistered));
    assert_eq!(registry.session_state("CP-2"), Some(SessionState::Unregistered));
    assert_eq!(registry.session_state("cp-1"), None);
}

#[test]
fn a_second_connection_of_a_station_is_refused() {
    let mut registry = ConnectionRegistry::new();
    registry.connect("CP-1".to_string(), 60, &midnight()).unwrap();
    let (call, _) = registry
        .send_call("CP-1", OcppActionEnum::ClearCache, Json::Object(vec![]), 1_000, &midnight())
        .unwrap()
        .unwrap();
    registry.handle_ocpp_messages(
        "CP-1",
        "[2,\"1\",\"BootNotification\",{\"chargePointVendor\":\"X\",\"chargePointModel\":\"Y\"}]",
        &midnight(),
    );
    assert_eq!(
        registry.connect("CP-1".to_string(), 60, &later(5)),
        Err(AlreadyConnected { station_id: "CP-1".to_string() })
    );
    assert_eq!(registry.len(), 1);
    assert_eq!(registry.session_state("CP-1"), Some(SessionState::AwaitingBoot));
    assert_eq!(
        registry.disconnect("CP-1"),
        Some(vec![Completion { call, outcome: CallOutcome::Cancelled }])
    );
    assert_eq!(registry.connect("CP-1".to_string(), 60, &later(6)), Ok(()));
    assert_eq!(registry.session_state("CP-1"), Some(SessionState::Unregistered));
    assert_eq!(
        registry.complete("CP-1", "1", HandlerResult::Boot { accepted: true }, &later(7)),
        Some(None)
    );
}

#[test]
fn disconnect_removes_the_session_and_cancels_its_calls() {
    let mut registry = ConnectionRegistry::new();
    registry.connect("CP-1".to_string(), 60, &midnight()).unwrap();
    registry.connect("CP-2".to_string(), 60, &midnight()).unwrap();
    let (call, _) = registry
        .send_call("CP-2", OcppActionEnum::ClearCache, Json::Object(vec![]), 1_000, &midnight())
        .unwrap()
        .unwrap();
    assert_eq!(registry.disconnect("CP-3"), None);
    assert_eq!(registry.len(), 2);
    assert_eq!(
        registry.disconnect("CP-2"),
        Some(vec![Completion { call, outcome: CallOutcome::Cancelled }])
    );
    assert_eq!(registry.len(), 1);
    assert_eq!(registry.session_state("CP-2"), None);
    assert_eq!(registry.session_state("CP-1"), Some(SessionState::Unregistered));
    assert_eq!(registry.disconnect("CP-2"), None);
    assert_eq!(registry.disconnect("CP-1"), Some(vec![]));
    assert_eq!(registry.len(), 0);
}

#[test]
fn a_frame_reaches_the_session_of_its_station_only() {
    let mut registry = ConnectionRegistry::new();
    registry.connect("CP-1".to_string(), 60, &midnight()).unwrap();
    registry.connect("CP-2".to_string(), 300, &midnight()).unwrap();
    let boot =
        "[2,\"1\",\"BootNotification\",{\"chargePointVendor\":\"X\",\"chargePointModel\":\"Y\"}]";
    assert!(matches!(
        registry.handle_ocpp_messages("CP-2", boot, &later(1)),
        Some(SessionAction::Dispatch(_))
    ));
    assert_eq!(registry.session_state("CP-1"), Some(SessionState::Unregistered));
    assert_eq!(registry.session_state("CP-2"), Some(SessionState::AwaitingBoot));
    assert_eq!(
        registry.complete("CP-1", "1", HandlerResult::Boot { accepted: true }, &later(2)),
        Some(None)
    );
    let reply = registry
        .complete("CP-2", "1", HandlerResult::Boot { accepted: true }, &later(2))
        .unwrap()
        .unwrap();
    assert_eq!(
        encode(reply),
        "[3,\"1\",{\"currentTime\":\"2024-01-01T00:00:00.002Z\",\"interval\":300,\"status\":\"Accepted\"}]"
    );
    assert_eq!(
        registry.session_state("CP-2"),
        Some(SessionState::Registered(RegistrationStatus::Accepted))
    );
    assert_eq!(registry.session_state("CP-1"), Some(SessionState::Unregistered));
    assert_eq!(registry.len(), 2);
}

#[test]
fn a_station_that_is_not_connected_has_nothing_done() {
    let mut registry = ConnectionRegistry::new();
    registry.connect("CP-1".to_string(), 60, &midnight()).unwrap();
    assert_eq!(registry.handle_ocpp_messages("CP-9", "[2,\"1\",\"Heartbeat\",{}]", &midnight()), None);
    assert_eq!(
        registry.complete("CP-9", "1", HandlerResult::Boot { accepted: true }, &midnight()),
        None
    );
    assert_eq!(
        registry.send_call("CP-9", OcppActionEnum::ClearCache, Json::Object(vec![]), 1, &midnight()),
        None
    );
    assert_eq!(registry.expire("CP-9", &midnight()), None);
    assert_eq!(registry.len(), 1);
}

#[test]
fn calls_expire_on_the_session_of_their_station() {
    let mut registry = ConnectionRegistry::new();
    registry.connect("CP-1".to_string(), 60, &midnight()).unwrap();
    registry.connect("CP-2".to_string(), 60, &midnight()).unwrap();
    let (first, frame) = registry
        .send_call("CP-1", OcppActionEnum::ClearCache, Json::Object(vec![]), 1_000, &midnight())
        .unwrap()
        .unwrap();
    let (second, _) = registry
        .send_call("CP-2", OcppActionEnum::ClearCache, Json::Object(vec![]), 1_000, &midnight())
        .unwrap()
        .unwrap();
    assert_eq!(
        frame,
        OcppMessageType::Call(2, "1".to_string(), "ClearCache".to_string(), Json::Object(vec![]))
    );
    assert_eq!(first.message_id, second.message_id);
    assert_eq!(registry.expire("CP-1", &later(999)), Some(vec![]));
    assert_eq!(
        registry.expire("CP-1", &later(1_000)),
        Some(vec![Completion { call: first, outcome: CallOutcome::Timeout }])
    );
    assert_eq!(
        registry.handle_ocpp_messages("CP-2", "[3,\"1\",{\"status\":\"Accepted\"}]", &later(1_001)),
        Some(SessionAction::Completed(Completion {
            call: second,
            outcome: CallOutcome::Result(ocpp_backend::payload::OcppPayload::tagged(
                OcppActionEnum::ClearCache,
                ocpp_backend::payload::PayloadKind::Response,
                Json::Object(vec![("status".to_string(), Json::Str("Accepted".to_string()))])
            )),
        }))
    );
}

#[test]
fn a_station_is_idle_after_its_limit_of_silence() {
    let mut registry = ConnectionRegistry::new();
    registry.connect("CP-1".to_string(), 60, &midnight()).unwrap();
    assert_eq!(registry.is_idle("CP-1", &later(10_000), 10_000), Some(false));
    assert_eq!(registry.is_idle("CP-1", &later(10_001), 10_000), Some(true));
    registry.handle_ocpp_messages("CP-1", "[2,\"1\",\"Heartbeat\",{}]", &later(10_000));
    assert_eq!(registry.is_idle("CP-1", &later(10_001), 10_000), Some(false));
    assert_eq!(registry.is_idle("CP-2", &later(10_001), 10_000), None);
}
