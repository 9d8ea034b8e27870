//! Typed messages: a Call whose payload has been validated, the two
//! answers to it, and the error codes of a CallError.

use vstd::prelude::*;
use crate::action::{action_name, OcppActionEnum};
use crate::frame::{Frame, OcppMessageType, CALL_ERROR, CALL_RESULT};
use crate::json::{Json, JsonValue};
use crate::payload::{OcppPayload, PayloadView};

verus! {

/// The error codes of a CallError. The vocabulary is open: a code that is
/// not listed is carried as `Other`.
#[derive(Clone, Debug, PartialEq, Eq)]
pub enum OcppErrorCode {
    NotImplemented,
    NotSupported,
    InternalError,
    ProtocolError,
    SecurityError,
    FormationViolation,
    PropertyConstraintViolation,
    OccurenceConstraintViolation,
    TypeConstraintViolation,
    GenericError,
    Other(String),
}

/// The text of an error code on the wire.
pub open spec fn error_code_text(code: OcppErrorCode) -> Seq<char> {
    match code {
        OcppErrorCode::NotImplemented => "NotImplemented"@,
        OcppErrorCode::NotSupported => "NotSupported"@,
        OcppErrorCode::InternalError => "InternalError"@,
        OcppErrorCode::ProtocolError => "ProtocolError"@,
        OcppErrorCode::SecurityError => "SecurityError"@,
        OcppErrorCode::FormationViolation => "FormationViolation"@,
        OcppErrorCode::PropertyConstraintViolation => "PropertyConstraintViolation"@,
        OcppErrorCode::OccurenceConstraintViolation => "OccurenceConstraintViolation"@,
        OcppErrorCode::TypeConstraintViolation => "TypeConstraintViolation"@,
        OcppErrorCode::GenericError => "GenericError"@,
        OcppErrorCode::Other(text) => text@,
    }
}

impl OcppErrorCode {
    /// The text of the error code on the wire.
    pub fn into_text(self) -> (text: String)
        ensures
            text@ == error_code_text(self),
    {
        match self {
            OcppErrorCode::NotImplemented => "NotImplemented".to_owned(),
            OcppErrorCode::NotSupported => "NotSupported".to_owned(),
            OcppErrorCode::InternalError => "InternalError".to_owned(),
            OcppErrorCode::ProtocolError => "ProtocolError".to_owned(),
            OcppErrorCode::SecurityError => "SecurityError".to_owned(),
            OcppErrorCode::FormationViolation => "FormationViolation".to_owned(),
            OcppErrorCode::PropertyConstraintViolation => "PropertyConstraintViolation".to_owned(),
            OcppErrorCode::OccurenceConstraintViolation => "OccurenceConstraintViolation".to_owned(),
            OcppErrorCode::TypeConstraintViolation => "TypeConstraintViolation".to_owned(),
            OcppErrorCode::GenericError => "GenericError".to_owned(),
            OcppErrorCode::Other(text) => text,
        }
    }
}

/// Call: [<MessageTypeId>, "<MessageId>", "<Action>", {<Payload>}]
#[derive(Clone, Debug, PartialEq)]
pub struct OcppCall {
    pub message_type_id: usize,
    pub message_id: String,
    pub action: OcppActionEnum,
    pub payload: OcppPayload,
}

/// CallResult: [<MessageTypeId>, "<MessageId>", {<Payload>}]
#[derive(Clone, Debug, PartialEq)]
pub struct OcppCallResult {
    pub message_type_id: usize,
    pub message_id: String,
    pub payload: OcppPayload,
}

/// CallError: [<MessageTypeId>, "<MessageId>", "<errorCode>", "<errorDescription>",
/// {<errorDetails>}]
#[derive(Clone, Debug, PartialEq)]
pub struct OcppCallError {
    pub message_type_id: usize,
    pub message_id: String,
    pub error_code: String,
    pub error_description: String,
    pub error_details: Json,
}

/// A typed Call as a mathematical value.
pub struct CallView {
    pub message_type_id: int,
    pub message_id: Seq<char>,
    pub action: OcppActionEnum,
    pub payload: PayloadView,
}

impl View for OcppCall {
    type V = CallView;

    open spec fn view(&self) -> CallView {
        CallView {
            message_type_id: self.message_type_id as int,
            message_id: self.message_id@,
            action: self.action,
            payload: self.payload@,
        }
    }
}

/// The frame of a typed Call.
pub open spec fn call_frame(call: CallView) -> Frame {
    Frame::Call {
        message_type_id: call.message_type_id,
        message_id: call.message_id,
        action: action_name(call.action),
        payload: call.payload.body,
    }
}

/// The frame of a CallResult with the given payload.
pub open spec fn result_frame(message_id: Seq<char>, payload: JsonValue) -> Frame {
    Frame::CallResult { message_type_id: CALL_RESULT as int, message_id, payload }
}

/// The frame of a CallError without details.
pub open spec fn error_frame(
    message_id: Seq<char>,
    code: OcppErrorCode,
    description: Seq<char>,
) -> Frame {
    Frame::CallError {
        message_type_id: CALL_ERROR as int,
        message_id,
        error_code: error_code_text(code),
        error_description: description,
        error_details: JsonValue::Object(seq![]),
    }
}

impl OcppCall {
    /// The frame that carries the Call.
    pub fn into_frame(self) -> (frame: OcppMessageType)
        ensures
            frame@ == call_frame(self@),
    {
        OcppMessageType::Call(
            self.message_type_id,
            self.message_id,
            self.action.name().to_owned(),
            self.payload.into_body(),
        )
    }
}

impl OcppCallResult {
    /// The frame that carries the CallResult.
    pub fn into_frame(self) -> (frame: OcppMessageType)
        ensures
            frame@ == (Frame::CallResult {
                message_type_id: self.message_type_id as int,
                message_id: self.message_id@,
                payload: self.payload@.body,
            }),
    {
        OcppMessageType::CallResult(
            self.message_type_id,
            self.message_id,
            self.payload.into_body(),
        )
    }
}

impl OcppCallError {
    /// A CallError with the given code and description, and no details.
    pub fn new(message_id: String, code: OcppErrorCode, description: String) -> (error:
        OcppCallError)
        ensures
            error.message_type_id == CALL_ERROR,
            error.message_id == message_id,
            error.error_code@ == error_code_text(code),
            error.error_description == description,
            error.error_details@ == JsonValue::Object(seq![]),
    {
        let details = Json::Object(Vec::new());
        assert(details@->Object_0 =~= seq![]);
        OcppCallError {
            message_type_id: CALL_ERROR,
            message_id,
            error_code: code.into_text(),
            error_description: description,
            error_details: details,
        }
    }

    /// The frame that carries the CallError.
    pub fn into_frame(self) -> (frame: OcppMessageType)
        ensures
            frame@ == (Frame::CallError {
                message_type_id: self.message_type_id as int,
                message_id: self.message_id@,
                error_code: self.error_code@,
                error_description: self.error_description@,
                error_details: self.error_details@,
            }),
    {
        OcppMessageType::CallError(
            self.message_type_id,
            self.message_id,
            self.error_code,
            self.error_description,
            self.error_details,
        )
    }
}

} // verus!
