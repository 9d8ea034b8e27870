use ocpp_backend::action::{request_fields, ActionSpec, FieldKind, FieldSpec, OcppActionEnum};
use ocpp_backend::json::Json;
use ocpp_backend::payload::{
    check_shape, has_kind, rule_named, type_fault, validate, AuthorizeKind, BootNotificationKind,
    HeartbeatKind, OcppPayload, PayloadKind, ValidationError,
};

use rust_ocpp::v1_6::messages::authorize::{AuthorizeRequest, AuthorizeResponse};
use rust_ocpp::v1_6::messages::boot_notification::{
    BootNotificationRequest, BootNotificationResponse,
};
use rust_ocpp::v1_6::messages::heart_beat::{HeartbeatRequest, HeartbeatResponse};
use rust_ocpp::v1_6::messages::status_notification::StatusNotificationRequest;
use rust_ocpp::v1_6::types::{
    AuthorizationStatus, ChargePointErrorCode, ChargePointStatus, IdTagInfo, RegistrationStatus,
};

fn member(key: &str, value: Json) -> (String, Json) {
    (key.to_string(), value)
}

fn string_of(s: &str) -> Json {
    Json::Str(s.to_string())
}

fn integer_of(s: &str) -> Json {
    Json::Number(s.to_string())
}

fn mismatch(field: &str, expected: &str) -> ValidationError {
    ValidationError::SchemaMismatch { field: field.to_string(), expected: expected.to_string() }
}

fn boot_request() -> Json {
    Json::Object(vec![
        member("chargePointVendor", string_of("X")),
        member("chargePointModel", string_of("Y")),
    ])
}

#[test]
fn validate_tags_a_payload_by_its_action_and_side() {
    let spec = ActionSpec::of(OcppActionEnum::BootNotification);
    let payload = validate(&spec, PayloadKind::Request, boot_request()).unwrap();
    assert_eq!(payload, OcppPayload::BootNotification(BootNotificationKind::Request(boot_request())));
    assert_eq!(payload.action(), OcppActionEnum::BootNotification);
    assert_eq!(payload.kind(), PayloadKind::Request);
    assert_eq!(payload.body(), &boot_request());
    assert_eq!(payload.into_body(), boot_request());
}

#[test]
fn validate_reads_the_same_payload_by_the_action_given() {
    let empty = Json::Object(vec![]);
    let heartbeat = ActionSpec::of(OcppActionEnum::Heartbeat);
    let clear_cache = ActionSpec::of(OcppActionEnum::ClearCache);
    assert_eq!(
        validate(&heartbeat, PayloadKind::Request, empty.clone()),
        Ok(OcppPayload::Heartbeat(HeartbeatKind::Request(empty.clone())))
    );
    assert_eq!(
        validate(&clear_cache, PayloadKind::Request, empty.clone()).unwrap().action(),
        OcppActionEnum::ClearCache
    );
    assert_eq!(
        validate(&heartbeat, PayloadKind::Response, empty),
        Err(mismatch("currentTime", "string"))
    );
}

#[test]
fn validate_accepts_optional_members() {
    let spec = ActionSpec::of(OcppActionEnum::BootNotification);
    let payload = Json::Object(vec![
        member("chargePointVendor", string_of("X")),
        member("chargePointModel", string_of("Y")),
        member("chargePointSerialNumber", string_of("NKYK430037668")),
        member("firmwareVersion", string_of("1.0")),
    ]);
    assert!(validate(&spec, PayloadKind::Request, payload).is_ok());
}

#[test]
fn validate_reports_a_missing_member() {
    let spec = ActionSpec::of(OcppActionEnum::BootNotification);
    let payload = Json::Object(vec![member("chargePointVendor", string_of("X"))]);
    assert_eq!(
        validate(&spec, PayloadKind::Request, payload),
        Err(mismatch("chargePointModel", "string"))
    );
    let authorize = ActionSpec::of(OcppActionEnum::Authorize);
    assert_eq!(
        validate(&authorize, PayloadKind::Request, Json::Object(vec![])),
        Err(mismatch("idTag", "string"))
    );
}

#[test]
fn validate_reports_a_member_of_the_wrong_type() {
    let spec = ActionSpec::of(OcppActionEnum::Authorize);
    let payload = Json::Object(vec![member("idTag", integer_of("7"))]);
    assert_eq!(validate(&spec, PayloadKind::Request, payload), Err(mismatch("idTag", "string")));
    let unlock = ActionSpec::of(OcppActionEnum::UnlockConnector);
    assert_eq!(
        validate(&unlock, PayloadKind::Request, Json::Object(vec![member("connectorId", string_of("1"))])),
        Err(mismatch("connectorId", "integer"))
    );
    assert_eq!(
        validate(&unlock, PayloadKind::Request, Json::Object(vec![member("connectorId", integer_of("1.5"))])),
        Err(mismatch("connectorId", "integer"))
    );
    assert!(validate(
        &unlock,
        PayloadKind::Request,
        Json::Object(vec![member("connectorId", integer_of("1"))])
    )
    .is_ok());
}

#[test]
fn validate_reports_a_member_that_the_shape_does_not_have() {
    let spec = ActionSpec::of(OcppActionEnum::Authorize);
    let payload =
        Json::Object(vec![member("idTag", string_of("A")), member("extra", Json::Bool(true))]);
    assert_eq!(
        validate(&spec, PayloadKind::Request, payload),
        Err(mismatch("extra", "no such member"))
    );
    let heartbeat = ActionSpec::of(OcppActionEnum::Heartbeat);
    assert_eq!(
        validate(&heartbeat, PayloadKind::Request, Json::Object(vec![member("x", Json::Null)])),
        Err(mismatch("x", "no such member"))
    );
}

#[test]
fn validate_reports_a_payload_that_is_no_object() {
    let spec = ActionSpec::of(OcppActionEnum::Heartbeat);
    for raw in [Json::Null, Json::Array(vec![]), string_of("{}"), integer_of("1"), Json::Bool(false)] {
        assert_eq!(validate(&spec, PayloadKind::Request, raw), Err(mismatch("", "object")));
    }
}

#[test]
fn validate_reads_a_response_against_the_response_shape() {
    let spec = ActionSpec::of(OcppActionEnum::Authorize);
    let response = Json::Object(vec![member(
        "idTagInfo",
        Json::Object(vec![member("status", string_of("Accepted"))]),
    )]);
    assert_eq!(
        validate(&spec, PayloadKind::Response, response.clone()),
        Ok(OcppPayload::Authorize(AuthorizeKind::Response(response.clone())))
    );
    assert_eq!(
        validate(&spec, PayloadKind::Request, response),
        Err(mismatch("idTagInfo", "no such member"))
    );
}

#[test]
fn validate_uses_the_shape_of_the_entry_it_is_given() {
    let spec = ActionSpec {
        action: OcppActionEnum::DataTransfer,
        direction: OcppActionEnum::DataTransfer.direction(),
        request: vec![FieldSpec { name: "flag", kind: FieldKind::Boolean, required: true }],
        response: vec![],
    };
    assert!(validate(
        &spec,
        PayloadKind::Request,
        Json::Object(vec![member("flag", Json::Bool(true))])
    )
    .is_ok());
    assert_eq!(
        validate(&spec, PayloadKind::Request, Json::Object(vec![member("flag", Json::Null)])),
        Err(mismatch("flag", "boolean"))
    );
}

#[test]
fn check_shape_agrees_with_validate() {
    let rules = request_fields(OcppActionEnum::StartTransaction);
    let good = Json::Object(vec![
        member("connectorId", integer_of("1")),
        member("idTag", string_of("A")),
        member("meterStart", integer_of("0")),
        member("timestamp", string_of("2024-01-01T00:00:00Z")),
    ]);
    assert_eq!(check_shape(&good, &rules), Ok(()));
    let bad = Json::Object(vec![
        member("connectorId", integer_of("1")),
        member("idTag", string_of("A")),
        member("meterStart", string_of("0")),
        member("timestamp", string_of("2024-01-01T00:00:00Z")),
    ]);
    assert_eq!(check_shape(&bad, &rules), Err(mismatch("meterStart", "integer")));
}

#[test]
fn has_kind_tells_the_json_types_apart() {
    assert!(has_kind(&Json::Bool(true), FieldKind::Boolean));
    assert!(!has_kind(&Json::Null, FieldKind::Boolean));
    assert!(has_kind(&integer_of("-12"), FieldKind::Integer));
    assert!(!has_kind(&integer_of("0.5"), FieldKind::Integer));
    assert!(!has_kind(&string_of("12"), FieldKind::Integer));
    assert!(has_kind(&string_of(""), FieldKind::Text));
    assert!(!has_kind(&integer_of("1"), FieldKind::Text));
    assert!(has_kind(&Json::Array(vec![]), FieldKind::List));
    assert!(!has_kind(&Json::Object(vec![]), FieldKind::List));
    assert!(has_kind(&Json::Object(vec![]), FieldKind::Object));
    assert!(!has_kind(&Json::Array(vec![]), FieldKind::Object));
}

#[test]
fn a_fault_is_of_type_only_where_payload_and_shape_both_have_the_member() {
    let rules = request_fields(OcppActionEnum::Authorize);
    assert!(rule_named(&rules, "idTag"));
    assert!(!rule_named(&rules, "idtag"));
    let wrong = Json::Object(vec![member("idTag", integer_of("7"))]);
    assert!(type_fault(&wrong, &rules, "idTag"));
    assert!(!type_fault(&Json::Object(vec![]), &rules, "idTag"));
    assert!(!type_fault(&Json::Object(vec![member("extra", Json::Null)]), &rules, "extra"));
    assert!(!type_fault(&Json::Null, &rules, "idTag"));
}

#[test]
fn tagged_puts_a_document_under_every_action_and_side() {
    for action in [
        OcppActionEnum::Authorize,
        OcppActionEnum::BootNotification,
        OcppActionEnum::ChangeAvailability,
        OcppActionEnum::ChangeConfiguration,
        OcppActionEnum::ClearCache,
        OcppActionEnum::DataTransfer,
        OcppActionEnum::GetConfiguration,
        OcppActionEnum::Heartbeat,
        OcppActionEnum::MeterValues,
        OcppActionEnum::RemoteStartTransaction,
        OcppActionEnum::RemoteStopTransaction,
        OcppActionEnum::Reset,
        OcppActionEnum::StartTransaction,
        OcppActionEnum::StatusNotification,
        OcppActionEnum::StopTransaction,
        OcppActionEnum::UnlockConnector,
    ] {
        for kind in [PayloadKind::Request, PayloadKind::Response] {
            let payload = OcppPayload::tagged(action, kind, string_of("body"));
            assert_eq!(payload.action(), action);
            assert_eq!(payload.kind(), kind);
            assert_eq!(payload.body(), &string_of("body"));
        }
    }
}

#[test]
fn the_shapes_accept_what_the_ocpp_types_serialise_to() {
    let now = chrono::DateTime::<chrono::Utc>::from_timestamp_millis(1_700_000_000_000).unwrap();
    let cases: Vec<(OcppActionEnum, PayloadKind, String)> = vec![
        (
            OcppActionEnum::Authorize,
            PayloadKind::Request,
            serde_json::to_string(&AuthorizeRequest { id_tag: "A".to_string() }).unwrap(),
        ),
        (
            OcppActionEnum::Authorize,
            PayloadKind::Response,
            serde_json::to_string(&AuthorizeResponse {
                id_tag_info: IdTagInfo {
                    status: AuthorizationStatus::Accepted,
                    expiry_date: None,
                    parent_id_tag: None,
                },
            })
            .unwrap(),
        ),
        (
            OcppActionEnum::BootNotification,
            PayloadKind::Request,
            serde_json::to_string(&BootNotificationRequest {
                charge_box_serial_number: None,
                charge_point_model: "Y".to_string(),
                charge_point_serial_number: Some("NKYK430037668".to_string()),
                charge_point_vendor: "X".to_string(),
                firmware_version: None,
                iccid: None,
                imsi: None,
                meter_serial_number: None,
                meter_type: None,
            })
            .unwrap(),
        ),
        (
            OcppActionEnum::BootNotification,
            PayloadKind::Response,
            serde_json::to_string(&BootNotificationResponse {
                current_time: now,
                interval: 300,
                status: RegistrationStatus::Accepted,
            })
            .unwrap(),
        ),
        (
            OcppActionEnum::Heartbeat,
            PayloadKind::Request,
            serde_json::to_string(&HeartbeatRequest {}).unwrap(),
        ),
        (
            OcppActionEnum::Heartbeat,
            PayloadKind::Response,
            serde_json::to_string(&HeartbeatResponse { current_time: now }).unwrap(),
        ),
        (
            OcppActionEnum::StatusNotification,
            PayloadKind::Request,
            serde_json::to_string(&StatusNotificationRequest {
                connector_id: 1,
                error_code: ChargePointErrorCode::NoError,
                info: None,
                status: ChargePointStatus::Available,
                timestamp: Some(now),
                vendor_id: None,
                vendor_error_code: None,
            })
            .unwrap(),
        ),
    ];
    for (action, kind, text) in cases {
        let raw = Json::parse(&text).unwrap();
        let validated = validate(&ActionSpec::of(action), kind, raw);
        assert!(validated.is_ok(), "{} {:?}", text, validated);
    }
}
