use std::str::FromStr;

use ocpp_backend::action::{
    lookup, request_fields, response_fields, ActionSpec, Direction, FieldKind, OcppActionEnum,
};

fn all_actions() -> Vec<(OcppActionEnum, &'static str, Direction)> {
    vec![
        (OcppActionEnum::Authorize, "Authorize", Direction::StationToServer),
        (OcppActionEnum::BootNotification, "BootNotification", Direction::StationToServer),
        (OcppActionEnum::ChangeAvailability, "ChangeAvailability", Direction::ServerToStation),
        (OcppActionEnum::ChangeConfiguration, "ChangeConfiguration", Direction::ServerToStation),
        (OcppActionEnum::ClearCache, "ClearCache", Direction::ServerToStation),
        (OcppActionEnum::DataTransfer, "DataTransfer", Direction::Both),
        (OcppActionEnum::GetConfiguration, "GetConfiguration", Direction::ServerToStation),
        (OcppActionEnum::Heartbeat, "Heartbeat", Direction::StationToServer),
        (OcppActionEnum::MeterValues, "MeterValues", Direction::StationToServer),
        (OcppActionEnum::RemoteStartTransaction, "RemoteStartTransaction", Direction::ServerToStation),
        (OcppActionEnum::RemoteStopTransaction, "RemoteStopTransaction", Direction::ServerToStation),
        (OcppActionEnum::Reset, "Reset", Direction::ServerToStation),
        (OcppActionEnum::StatusNotification, "StatusNotification", Direction::StationToServer),
        (OcppActionEnum::StartTransaction, "StartTransaction", Direction::StationToServer),
        (OcppActionEnum::StopTransaction, "StopTransaction", Direction::StationToServer),
        (OcppActionEnum::UnlockConnector, "UnlockConnector", Direction::ServerToStation),
    ]
}

#[test]
fn every_core_action_is_found_by_its_name() {
    for (action, name, direction) in all_actions() {
        assert_eq!(action.name(), name);
        assert_eq!(OcppActionEnum::from_name(name), Some(action));
        assert_eq!(OcppActionEnum::from_str(name), Ok(action));
        assert_eq!(name.parse::<OcppActionEnum>(), Ok(action));
        assert_eq!(action.direction(), direction);
        let spec = lookup(name).unwrap();
        assert_eq!(spec.action, action);
        assert_eq!(spec.direction, direction);
    }
}

#[test]
fn looking_up_an_actions_own_name_gives_it_back() {
    for (action, _, _) in all_actions() {
        assert_eq!(OcppActionEnum::from_name(action.name()), Some(action));
    }
}

#[test]
fn action_names_are_distinct() {
    let all = all_actions();
    for (i, (_, a, _)) in all.iter().enumerate() {
        for (j, (_, b, _)) in all.iter().enumerate() {
            assert_eq!(i == j, a == b);
        }
    }
}

#[test]
fn lookup_is_case_sensitive_and_exact() {
    assert!(lookup("heartbeat").is_err());
    assert!(lookup("HEARTBEAT").is_err());
    assert!(lookup("Heartbeat ").is_err());
    assert!(lookup(" Heartbeat").is_err());
    assert!(lookup("Heartbea").is_err());
    assert!(lookup("").is_err());
    assert_eq!(OcppActionEnum::from_name("Bogus"), None);
}

#[test]
fn lookup_reports_the_name_it_did_not_find() {
    let unknown = lookup("Bogus").unwrap_err();
    assert_eq!(unknown.name, "Bogus");
}

#[test]
fn from_str_reports_an_unknown_action_in_words() {
    assert_eq!(
        OcppActionEnum::from_str("Bogus"),
        Err("Unknown OCPP action: Bogus".to_string())
    );
    assert_eq!(OcppActionEnum::from_str(""), Err("Unknown OCPP action: ".to_string()));
}

#[test]
fn heartbeat_is_a_registered_action() {
    let spec = lookup("Heartbeat").unwrap();
    assert_eq!(spec.action, OcppActionEnum::Heartbeat);
    assert_eq!(spec.direction, Direction::StationToServer);
    assert!(spec.request.is_empty());
    assert_eq!(spec.response.len(), 1);
    assert_eq!(spec.response[0].name, "currentTime");
    assert_eq!(spec.response[0].kind, FieldKind::Text);
    assert!(spec.response[0].required);
}

#[test]
fn boot_notification_has_the_shape_of_the_core_profile() {
    let spec = ActionSpec::of(OcppActionEnum::BootNotification);
    let required: Vec<&str> =
        spec.request.iter().filter(|f| f.required).map(|f| f.name).collect();
    assert_eq!(required, vec!["chargePointModel", "chargePointVendor"]);
    assert_eq!(spec.request.len(), 9);
    assert!(spec.request.iter().all(|f| f.kind == FieldKind::Text));
    let response: Vec<(&str, FieldKind, bool)> =
        spec.response.iter().map(|f| (f.name, f.kind, f.required)).collect();
    assert_eq!(
        response,
        vec![
            ("currentTime", FieldKind::Text, true),
            ("interval", FieldKind::Integer, true),
            ("status", FieldKind::Text, true),
        ]
    );
}

#[test]
fn shapes_name_the_members_of_each_action() {
    let start: Vec<(&str, FieldKind, bool)> = request_fields(OcppActionEnum::StartTransaction)
        .iter()
        .map(|f| (f.name, f.kind, f.required))
        .collect();
    assert_eq!(
        start,
        vec![
            ("connectorId", FieldKind::Integer, true),
            ("idTag", FieldKind::Text, true),
            ("meterStart", FieldKind::Integer, true),
            ("reservationId", FieldKind::Integer, false),
            ("timestamp", FieldKind::Text, true),
        ]
    );
    let started: Vec<(&str, FieldKind, bool)> = response_fields(OcppActionEnum::StartTransaction)
        .iter()
        .map(|f| (f.name, f.kind, f.required))
        .collect();
    assert_eq!(
        started,
        vec![("idTagInfo", FieldKind::Object, true), ("transactionId", FieldKind::Integer, true)]
    );
    assert!(request_fields(OcppActionEnum::ClearCache).is_empty());
    assert!(response_fields(OcppActionEnum::MeterValues).is_empty());
    assert!(response_fields(OcppActionEnum::StatusNotification).is_empty());
    let get: Vec<(&str, FieldKind, bool)> = request_fields(OcppActionEnum::GetConfiguration)
        .iter()
        .map(|f| (f.name, f.kind, f.required))
        .collect();
    assert_eq!(get, vec![("key", FieldKind::List, false)]);
}

#[test]
fn a_direction_tells_which_side_may_call() {
    assert!(Direction::StationToServer.allows(true));
    assert!(!Direction::StationToServer.allows(false));
    assert!(!Direction::ServerToStation.allows(true));
    assert!(Direction::ServerToStation.allows(false));
    assert!(Direction::Both.allows(true));
    assert!(Direction::Both.allows(false));
    assert!(OcppActionEnum::Heartbeat.direction().allows(true));
    assert!(!OcppActionEnum::Reset.direction().allows(true));
    assert!(OcppActionEnum::DataTransfer.direction().allows(false));
}
