use ocpp_backend::frame::{decode, decode_value, encode, encode_value, DecodeError, OcppMessageType};
use ocpp_backend::json::Json;

fn empty_object() -> Json {
    Json::Object(vec![])
}

fn sample_frames() -> Vec<OcppMessageType> {
    vec![
        OcppMessageType::Call(2, "42".to_string(), "Heartbeat".to_string(), empty_object()),
        OcppMessageType::Call(
            2,
            "19223201".to_string(),
            "BootNotification".to_string(),
            Json::Object(vec![
                ("chargePointModel".to_string(), Json::Str("Y".to_string())),
                ("chargePointVendor".to_string(), Json::Str("X".to_string())),
            ]),
        ),
        OcppMessageType::Call(2, "a b".to_string(), "Bogus".to_string(), Json::Null),
        OcppMessageType::CallResult(
            3,
            "42".to_string(),
            Json::Object(vec![(
                "currentTime".to_string(),
                Json::Str("2024-01-01T00:00:00.000Z".to_string()),
            )]),
        ),
        OcppMessageType::CallResult(3, "x".to_string(), Json::Array(vec![Json::Number("1".to_string())])),
        OcppMessageType::CallError(
            4,
            "42".to_string(),
            "NotImplemented".to_string(),
            "Unknown OCPP action: Bogus".to_string(),
            empty_object(),
        ),
        OcppMessageType::CallError(
            4,
            "é".to_string(),
            "GenericError".to_string(),
            "".to_string(),
            Json::Object(vec![("reason".to_string(), Json::Str("\"quoted\"".to_string()))]),
        ),
    ]
}

#[test]
fn decode_reads_a_call() {
    assert_eq!(
        decode("[2,\"42\",\"Heartbeat\",{}]"),
        Ok(OcppMessageType::Call(2, "42".to_string(), "Heartbeat".to_string(), empty_object()))
    );
}

#[test]
fn decode_reads_a_call_result() {
    assert_eq!(
        decode("[3, \"42\", {\"currentTime\": \"2024-01-01T00:00:00Z\"}]"),
        Ok(OcppMessageType::CallResult(
            3,
            "42".to_string(),
            Json::Object(vec![(
                "currentTime".to_string(),
                Json::Str("2024-01-01T00:00:00Z".to_string())
            )])
        ))
    );
}

#[test]
fn decode_reads_a_call_error() {
    assert_eq!(
        decode("[4,\"42\",\"NotImplemented\",\"no such action\",{}]"),
        Ok(OcppMessageType::CallError(
            4,
            "42".to_string(),
            "NotImplemented".to_string(),
            "no such action".to_string(),
            empty_object()
        ))
    );
}

#[test]
fn decode_takes_any_document_as_payload() {
    assert_eq!(
        decode("[2,\"1\",\"Heartbeat\",null]"),
        Ok(OcppMessageType::Call(2, "1".to_string(), "Heartbeat".to_string(), Json::Null))
    );
    assert_eq!(
        decode("[3,\"1\",[1]]"),
        Ok(OcppMessageType::CallResult(
            3,
            "1".to_string(),
            Json::Array(vec![Json::Number("1".to_string())])
        ))
    );
}

#[test]
fn decode_does_not_look_at_the_action() {
    assert_eq!(
        decode("[2,\"1\",\"Bogus\",{}]"),
        Ok(OcppMessageType::Call(2, "1".to_string(), "Bogus".to_string(), empty_object()))
    );
}

#[test]
fn decode_rejects_a_first_element_that_is_not_2_3_or_4() {
    for text in [
        "[1,\"42\",\"Heartbeat\",{}]",
        "[5,\"42\",\"Heartbeat\",{}]",
        "[0,\"42\",{}]",
        "[-2,\"42\",\"Heartbeat\",{}]",
        "[2.0,\"42\",\"Heartbeat\",{}]",
        "[2.5,\"42\",\"Heartbeat\",{}]",
        "[\"2\",\"42\",\"Heartbeat\",{}]",
        "[null,\"42\",{}]",
        "[true,\"42\",{}]",
        "[[2],\"42\",{}]",
        "[22,\"42\",\"Heartbeat\",{}]",
        "[]",
    ] {
        assert_eq!(decode(text), Err(DecodeError::MalformedFrame), "{}", text);
    }
}

#[test]
fn decode_rejects_the_wrong_number_of_elements() {
    for text in [
        "[2]",
        "[2,\"42\"]",
        "[2,\"42\",\"Heartbeat\"]",
        "[2,\"42\",\"Heartbeat\",{},{}]",
        "[3]",
        "[3,\"42\"]",
        "[3,\"42\",{},{}]",
        "[4,\"42\",\"code\",\"description\"]",
        "[4,\"42\",\"code\",\"description\",{},{}]",
        "[4,\"42\",{}]",
        "[3,\"42\",\"Heartbeat\",{}]",
    ] {
        assert_eq!(decode(text), Err(DecodeError::MalformedFrame), "{}", text);
    }
}

#[test]
fn decode_rejects_elements_of_the_wrong_type() {
    for text in [
        "[2,42,\"Heartbeat\",{}]",
        "[2,\"42\",7,{}]",
        "[2,null,\"Heartbeat\",{}]",
        "[3,42,{}]",
        "[3,{},{}]",
        "[4,\"42\",1,\"description\",{}]",
        "[4,\"42\",\"code\",2,{}]",
        "[4,42,\"code\",\"description\",{}]",
    ] {
        assert_eq!(decode(text), Err(DecodeError::MalformedFrame), "{}", text);
    }
}

#[test]
fn decode_rejects_an_empty_message_id() {
    assert_eq!(decode("[2,\"\",\"Heartbeat\",{}]"), Err(DecodeError::MalformedFrame));
    assert_eq!(decode("[3,\"\",{}]"), Err(DecodeError::MalformedFrame));
    assert_eq!(decode("[4,\"\",\"code\",\"description\",{}]"), Err(DecodeError::MalformedFrame));
}

#[test]
fn decode_rejects_what_is_no_array() {
    for text in ["{}", "2", "\"[2]\"", "null", "true", "{\"0\":2}"] {
        assert_eq!(decode(text), Err(DecodeError::MalformedFrame), "{}", text);
    }
}

#[test]
fn decode_rejects_what_is_not_json() {
    for text in ["", "[2,\"42\",\"Heartbeat\",{}", "[2,'42','Heartbeat',{}]", "hello", "[2,,]"] {
        assert_eq!(decode(text), Err(DecodeError::MalformedFrame), "{}", text);
    }
}

#[test]
fn decode_value_reads_the_frame_of_a_document() {
    let value = Json::Array(vec![
        Json::Number("3".to_string()),
        Json::Str("7".to_string()),
        Json::Bool(true),
    ]);
    assert_eq!(
        decode_value(value),
        Ok(OcppMessageType::CallResult(3, "7".to_string(), Json::Bool(true)))
    );
    assert_eq!(decode_value(Json::Null), Err(DecodeError::MalformedFrame));
    assert_eq!(decode_value(Json::Array(vec![])), Err(DecodeError::MalformedFrame));
    assert_eq!(
        decode_value(Json::Array(vec![
            Json::Str("3".to_string()),
            Json::Str("7".to_string()),
            Json::Bool(true)
        ])),
        Err(DecodeError::MalformedFrame)
    );
}

#[test]
fn encode_writes_the_fields_in_their_fixed_order() {
    assert_eq!(
        encode(OcppMessageType::Call(2, "42".to_string(), "Heartbeat".to_string(), empty_object())),
        "[2,\"42\",\"Heartbeat\",{}]"
    );
    assert_eq!(
        encode(OcppMessageType::CallResult(
            3,
            "42".to_string(),
            Json::Object(vec![(
                "currentTime".to_string(),
                Json::Str("2024-01-01T00:00:00.000Z".to_string())
            )])
        )),
        "[3,\"42\",{\"currentTime\":\"2024-01-01T00:00:00.000Z\"}]"
    );
    assert_eq!(
        encode(OcppMessageType::CallError(
            4,
            "42".to_string(),
            "NotImplemented".to_string(),
            "Unknown OCPP action: Bogus".to_string(),
            empty_object()
        )),
        "[4,\"42\",\"NotImplemented\",\"Unknown OCPP action: Bogus\",{}]"
    );
}

#[test]
fn encode_value_builds_the_array_of_a_frame() {
    assert_eq!(
        encode_value(OcppMessageType::Call(
            2,
            "1".to_string(),
            "Reset".to_string(),
            Json::Object(vec![("type".to_string(), Json::Str("Soft".to_string()))])
        )),
        Json::Array(vec![
            Json::Number("2".to_string()),
            Json::Str("1".to_string()),
            Json::Str("Reset".to_string()),
            Json::Object(vec![("type".to_string(), Json::Str("Soft".to_string()))]),
        ])
    );
}

#[test]
fn decoding_what_encoding_wrote_gives_the_frame_back() {
    for frame in sample_frames() {
        assert!(frame.is_valid());
        assert_eq!(decode(&encode(frame.clone())), Ok(frame));
    }
}

#[test]
fn decoding_the_array_of_a_frame_gives_the_frame_back() {
    for frame in sample_frames() {
        assert_eq!(decode_value(encode_value(frame.clone())), Ok(frame));
    }
}

#[test]
fn a_frame_knows_its_message_id_and_type() {
    let frames = sample_frames();
    assert_eq!(frames[0].message_id(), "42");
    assert_eq!(frames[0].message_type_id(), 2);
    assert_eq!(frames[3].message_type_id(), 3);
    assert_eq!(frames[5].message_type_id(), 4);
    assert_eq!(frames[6].message_id(), "é");
}

#[test]
fn a_frame_with_the_wrong_type_id_or_no_message_id_is_not_valid() {
    assert!(!OcppMessageType::Call(3, "1".to_string(), "Reset".to_string(), empty_object())
        .is_valid());
    assert!(!OcppMessageType::CallResult(2, "1".to_string(), empty_object()).is_valid());
    assert!(!OcppMessageType::CallError(
        7,
        "1".to_string(),
        "a".to_string(),
        "b".to_string(),
        empty_object()
    )
    .is_valid());
    assert!(!OcppMessageType::CallResult(3, "".to_string(), empty_object()).is_valid());
    assert!(OcppMessageType::CallResult(3, "1".to_string(), empty_object()).is_valid());
}

#[test]
fn a_frame_carries_one_document() {
    let frames = sample_frames();
    assert_eq!(frames[0].document(), &empty_object());
    assert_eq!(frames[2].document(), &Json::Null);
    assert_eq!(
        frames[6].document(),
        &Json::Object(vec![("reason".to_string(), Json::Str("\"quoted\"".to_string()))])
    );
}

#[test]
fn a_frame_is_writable_where_it_is_valid_and_its_document_is() {
    for frame in sample_frames() {
        assert!(frame.is_writable());
    }
    let bad_number =
        OcppMessageType::CallResult(3, "1".to_string(), Json::Number("1.".to_string()));
    assert!(bad_number.is_valid());
    assert!(!bad_number.is_writable());
    assert_eq!(encode(bad_number), "[3,\"1\",null]");
    let twice = OcppMessageType::Call(
        2,
        "1".to_string(),
        "Heartbeat".to_string(),
        Json::Object(vec![("a".to_string(), Json::Null), ("a".to_string(), Json::Bool(true))]),
    );
    assert!(!twice.is_writable());
    assert_eq!(encode(twice), "[2,\"1\",\"Heartbeat\",{\"a\":true}]");
    let wrong_id = OcppMessageType::CallResult(2, "1".to_string(), empty_object());
    assert!(!wrong_id.is_writable());
}

#[test]
fn a_frame_with_members_out_of_order_is_read_back_the_same() {
    let frame = OcppMessageType::Call(
        2,
        "1".to_string(),
        "BootNotification".to_string(),
        Json::Object(vec![
            ("chargePointVendor".to_string(), Json::Str("X".to_string())),
            ("chargePointModel".to_string(), Json::Str("Y".to_string())),
        ]),
    );
    assert!(frame.is_writable());
    assert_eq!(decode(&encode(frame.clone())), Ok(frame));
}
