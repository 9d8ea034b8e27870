//! The dispatch engine as a state machine: the state of a station's
//! session as a mathematical value, what each event does to it and asks
//! of the caller, and what holds of every run.

use vstd::prelude::*;
use crate::action::{
    action_name, action_named, request_rules, response_rules, unknown_action_text, FieldRule,
    OcppActionEnum,
};
use crate::clock::TimestampView;
use crate::correlation::{
    after_resolve, deadline_of, distinct_ids, due, has_id, lemma_after_resolve, not_due,
    outcome_error_kind, resolved_call, Completion, CompletionView, ErrorKind, OutcomeView,
    PendingView,
};
use crate::frame::{
    is_message_id, is_number, json_to_frame, Frame, OcppMessageType, CALL, CALL_ERROR,
};
use crate::json::{json_parse, Json, JsonValue};
use crate::message::{
    error_code_text, error_frame, result_frame, CallView, OcppCall, OcppErrorCode,
};
use crate::payload::{
    conforms, first_fault, is_type_fault, MismatchView, PayloadKind, PayloadView, ValidationError,
};
use crate::text::{decimal, str_eq};

verus! {

/// The answer of the boot policy to a station's BootNotification.
#[derive(Clone, Copy, Debug, PartialEq, Eq, Structural)]
pub enum RegistrationStatus {
    Accepted,
    Rejected,
}

/// The state of a station's registration.
#[derive(Clone, Copy, Debug, PartialEq, Eq, Structural)]
pub enum SessionState {
    /// The socket is open and no BootNotification has come yet.
    Unregistered,
    /// A BootNotification has come and the boot policy has not answered.
    AwaitingBoot,
    /// The boot policy has answered.
    Registered(RegistrationStatus),
    /// The socket is closed.
    Closed,
}

/// A Call of the station that has been handed to its handler and has not
/// been answered yet.
#[derive(Clone, Debug, PartialEq, Eq)]
pub struct InboundCall {
    pub message_id: String,
    pub action: OcppActionEnum,
}

/// A Call that is being handled, as a mathematical value.
pub struct InboundView {
    pub message_id: Seq<char>,
    pub action: OcppActionEnum,
}

impl View for InboundCall {
    type V = InboundView;

    open spec fn view(&self) -> InboundView {
        InboundView { message_id: self.message_id@, action: self.action }
    }
}

/// The view of a list of Calls that are being handled.
pub open spec fn inbound_view(calls: Seq<InboundCall>) -> Seq<InboundView> {
    Seq::new(calls.len(), |i: int| calls[i]@)
}

/// Tells whether a Call with the message id `id` is being handled.
pub open spec fn has_inbound(inbound: Seq<InboundView>, id: Seq<char>) -> bool {
    exists|i: int| 0 <= i < inbound.len() && (#[trigger] inbound[i]).message_id == id
}

/// The place of a Call with the message id `id` among those being handled.
pub open spec fn inbound_position(inbound: Seq<InboundView>, id: Seq<char>) -> int {
    choose|i: int| 0 <= i < inbound.len() && (#[trigger] inbound[i]).message_id == id
}

/// No two Calls that are being handled have the same message id.
pub open spec fn distinct_inbound(inbound: Seq<InboundView>) -> bool {
    forall|i: int, j: int|
        0 <= i < j < inbound.len() ==> (#[trigger] inbound[i]).message_id != (
        #[trigger] inbound[j]).message_id
}

/// What a handler gives back for a Call that was handed to it.
#[derive(Clone, Debug, PartialEq)]
pub enum HandlerResult {
    /// The payload of the response, for any action but BootNotification.
    Response(Json),
    /// The answer of the boot policy, for BootNotification.
    Boot { accepted: bool },
    /// A business failure, answered with a CallError.
    Failure { error_code: OcppErrorCode, error_description: String, error_details: Json },
}

/// What a handler gives back, as a mathematical value.
pub enum HandlerResultView {
    Response(JsonValue),
    Boot { accepted: bool },
    Failure { error_code: Seq<char>, error_description: Seq<char>, error_details: JsonValue },
}

impl View for HandlerResult {
    type V = HandlerResultView;

    open spec fn view(&self) -> HandlerResultView {
        match self {
            HandlerResult::Response(body) => HandlerResultView::Response(body@),
            HandlerResult::Boot { accepted } => HandlerResultView::Boot { accepted: *accepted },
            HandlerResult::Failure {
                error_code,
                error_description,
                error_details,
            } => HandlerResultView::Failure {
                error_code: error_code_text(*error_code),
                error_description: error_description@,
                error_details: error_details@,
            },
        }
    }
}

/// What the caller is to do after an event.
#[derive(Clone, Debug, PartialEq)]
pub enum SessionAction {
    /// Send this frame to the station.
    Reply(OcppMessageType),
    /// Hand this Call to its handler, and bring what the handler gives
    /// back to `StationSession::complete`.
    Dispatch(OcppCall),
    /// Put this into the completion slot of the call it names.
    Completed(Completion),
    /// Send nothing: the frame was dropped, for the reason given.
    Dropped(ErrorKind),
}

/// What the caller is to do after an event, as a mathematical value.
pub enum ActionView {
    Reply(Frame),
    Dispatch(CallView),
    Completed(CompletionView),
    Dropped(ErrorKind),
}

impl View for SessionAction {
    type V = ActionView;

    open spec fn view(&self) -> ActionView {
        match self {
            SessionAction::Reply(frame) => ActionView::Reply(frame@),
            SessionAction::Dispatch(call) => ActionView::Dispatch(call@),
            SessionAction::Completed(completion) => ActionView::Completed(completion@),
            SessionAction::Dropped(kind) => ActionView::Dropped(*kind),
        }
    }
}

/// The kind of error that a reply reports, told by its code: an unknown
/// action for `NotImplemented`, a malformed frame for `ProtocolError`, a
/// schema mismatch for `FormationViolation` and
/// `TypeConstraintViolation`. A CallResult, and a CallError with any
/// other code, reports none of the protocol layer's own.
pub open spec fn reply_error_kind(frame: Frame) -> Option<ErrorKind> {
    match frame {
        Frame::CallError { error_code, .. } => {
            if error_code == error_code_text(OcppErrorCode::NotImplemented) {
                Some(ErrorKind::UnknownAction)
            } else if error_code == error_code_text(OcppErrorCode::ProtocolError) {
                Some(ErrorKind::MalformedFrame)
            } else if error_code == error_code_text(OcppErrorCode::FormationViolation)
                || error_code == error_code_text(OcppErrorCode::TypeConstraintViolation) {
                Some(ErrorKind::SchemaMismatch)
            } else {
                None
            }
        },
        _ => None,
    }
}

/// The kind of error that an action tells of, for the log: that of the
/// reply, that of the end of the pending call, or the reason for which a
/// frame was dropped.
pub open spec fn action_error_kind(action: ActionView) -> Option<ErrorKind> {
    match action {
        ActionView::Reply(frame) => reply_error_kind(frame),
        ActionView::Dispatch(_) => None,
        ActionView::Completed(completion) => outcome_error_kind(
            completion.outcome,
        ),
        ActionView::Dropped(kind) => Some(kind),
    }
}

impl SessionAction {
    /// The kind of error that the action tells of, if any.
    pub fn error_kind(&self) -> (kind: Option<ErrorKind>)
        ensures
            kind == action_error_kind(self@),
    {
        match self {
            SessionAction::Reply(OcppMessageType::CallError(_, _, error_code, _, _)) => {
                if str_eq(error_code.as_str(), "NotImplemented") {
                    Some(ErrorKind::UnknownAction)
                } else if str_eq(error_code.as_str(), "ProtocolError") {
                    Some(ErrorKind::MalformedFrame)
                } else if str_eq(error_code.as_str(), "FormationViolation") || str_eq(
                    error_code.as_str(),
                    "TypeConstraintViolation",
                ) {
                    Some(ErrorKind::SchemaMismatch)
                } else {
                    None
                }
            },
            SessionAction::Reply(_) => None,
            SessionAction::Dispatch(_) => None,
            SessionAction::Completed(completion) => completion.outcome.error_kind(),
            SessionAction::Dropped(kind) => Some(*kind),
        }
    }
}

/// A station session as a mathematical value.
pub struct SessionView {
    pub station_id: Seq<char>,
    pub state: SessionState,
    /// The Calls sent to the station that wait for their answer.
    pub pending: Seq<PendingView>,
    /// The number from which the next message id is made.
    pub next_serial: nat,
    /// The Calls of the station that are being handled.
    pub inbound: Seq<InboundView>,
    /// When the last frame came from the station, in milliseconds.
    pub last_activity: int,
    /// The heartbeat interval given to the station at boot, in seconds.
    pub heartbeat_interval: nat,
}

impl SessionView {
    /// The session's invariant: the message ids of the pending calls are
    /// distinct, each the numeral of a serial number that has been used;
    /// the message ids of the Calls being handled are distinct; and a
    /// closed session has neither.
    pub open spec fn wf(self) -> bool {
        &&& distinct_ids(self.pending)
        &&& forall|i: int|
            0 <= i < self.pending.len() ==> (#[trigger] self.pending[i]).message_id == decimal(
                self.pending[i].serial,
            ) && self.pending[i].serial < self.next_serial
        &&& distinct_inbound(self.inbound)
        &&& self.state is Closed ==> self.pending.len() == 0 && self.inbound.len() == 0
    }

    /// The session after a frame has come from the station at `now`.
    pub open spec fn touched(self, now: int) -> SessionView {
        SessionView { last_activity: now, ..self }
    }
}

/// The payload of the response to a Heartbeat.
pub open spec fn heartbeat_body(now: Seq<char>) -> JsonValue {
    JsonValue::Object(seq![("currentTime"@, JsonValue::Str(now))])
}

/// The text of a registration status on the wire.
pub open spec fn status_text(accepted: bool) -> Seq<char> {
    if accepted {
        "Accepted"@
    } else {
        "Rejected"@
    }
}

/// The payload of the response to a BootNotification.
pub open spec fn boot_body(accepted: bool, now: Seq<char>, interval: nat) -> JsonValue {
    JsonValue::Object(
        seq![
            ("currentTime"@, JsonValue::Str(now)),
            ("interval"@, JsonValue::Number(decimal(interval))),
            ("status"@, JsonValue::Str(status_text(accepted))),
        ],
    )
}

/// The description of a CallError for a schema mismatch.
pub open spec fn mismatch_text(field: Seq<char>, expected: Seq<char>) -> Seq<char> {
    field + ": expected "@ + expected
}

/// The description of a CallError for a frame that is malformed.
pub open spec fn malformed_text() -> Seq<char> {
    "Malformed frame"@
}

/// The description of a CallError for a handler whose result does not
/// fit the action of the Call.
pub open spec fn handler_fault_text() -> Seq<char> {
    "Handler result does not fit the action"@
}

/// The error code for a fault of a payload against a shape.
pub open spec fn violation_code(
    payload: JsonValue,
    rules: Seq<FieldRule>,
    field: Seq<char>,
) -> OcppErrorCode {
    if is_type_fault(payload, rules, field) {
        OcppErrorCode::TypeConstraintViolation
    } else {
        OcppErrorCode::FormationViolation
    }
}

/// The one CallError that answers a Call whose payload does not have the
/// shape of its action: it carries the Call's message id, and its code
/// and description report the fault.
pub open spec fn schema_error_frame(
    message_id: Seq<char>,
    payload: JsonValue,
    rules: Seq<FieldRule>,
    fault: MismatchView,
) -> Frame {
    error_frame(
        message_id,
        violation_code(payload, rules, fault.field),
        mismatch_text(fault.field, fault.expected),
    )
}

/// What handling a Call of a known action does to the session and asks of
/// the caller.
///
/// A closed session drops the Call. A Call whose message id is that of a
/// Call still being handled is dropped, so that no message id is answered
/// twice. A payload without the shape of the action is answered with one
/// CallError. A Heartbeat is answered at once with the current time,
/// whatever the registration state. Any other Call is handed to its
/// handler; a BootNotification also moves the session to `AwaitingBoot`.
pub open spec fn call_step(
    before: SessionView,
    message_type_id: int,
    message_id: Seq<char>,
    action: OcppActionEnum,
    payload: JsonValue,
    now: TimestampView,
) -> (SessionView, ActionView) {
    if before.state is Closed {
        (before, ActionView::Dropped(ErrorKind::SessionClosed))
    } else if has_inbound(before.inbound, message_id) {
        (before.touched(now.millis), ActionView::Dropped(ErrorKind::DuplicateMessageId))
    } else {
        match first_fault(payload, request_rules(action)) {
            Some(fault) => (
                before.touched(now.millis),
                ActionView::Reply(
                    schema_error_frame(message_id, payload, request_rules(action), fault),
                ),
            ),
            None => if action == OcppActionEnum::Heartbeat {
                (
                    before.touched(now.millis),
                    ActionView::Reply(result_frame(message_id, heartbeat_body(now.text))),
                )
            } else {
                (
                    SessionView {
                        state: if action == OcppActionEnum::BootNotification {
                            SessionState::AwaitingBoot
                        } else {
                            before.state
                        },
                        inbound: before.inbound.push(InboundView { message_id, action }),
                        ..before.touched(now.millis)
                    },
                    ActionView::Dispatch(
                        CallView {
                            message_type_id,
                            message_id,
                            action,
                            payload: PayloadView {
                                action,
                                kind: PayloadKind::Request,
                                body: payload,
                            },
                        },
                    ),
                )
            },
        }
    }
}

/// The end that a CallResult with the payload `payload` brings to the
/// pending call `call`: the typed payload where it has the shape of the
/// response of the call's action, and otherwise its first fault against
/// that shape.
pub open spec fn result_outcome(call: PendingView, payload: JsonValue) -> OutcomeView {
    match first_fault(payload, response_rules(call.action)) {
        Some(fault) => OutcomeView::Invalid(fault),
        None => OutcomeView::Result(
            PayloadView { action: call.action, kind: PayloadKind::Response, body: payload },
        ),
    }
}

/// What handling a CallResult does to the session and asks of the caller.
///
/// A closed session drops it. One whose message id no pending call has is
/// dropped as unsolicited, and the table of pending calls stays as it
/// was. Otherwise the pending call leaves the table and comes to its end;
/// its payload is read against the action that the call was sent for.
pub open spec fn call_result_step(
    before: SessionView,
    message_id: Seq<char>,
    payload: JsonValue,
    now: TimestampView,
) -> (SessionView, ActionView) {
    if before.state is Closed {
        (before, ActionView::Dropped(ErrorKind::SessionClosed))
    } else {
        match resolved_call(before.pending, message_id) {
            Some(call) => (
                SessionView {
                    pending: after_resolve(before.pending, message_id),
                    ..before.touched(now.millis)
                },
                ActionView::Completed(
                    CompletionView { call, outcome: result_outcome(call, payload) },
                ),
            ),
            None => (
                before.touched(now.millis),
                ActionView::Dropped(ErrorKind::UnsolicitedResponse),
            ),
        }
    }
}

/// What handling a CallError does to the session and asks of the caller:
/// as for a CallResult, but the pending call ends with the error.
pub open spec fn call_error_step(
    before: SessionView,
    message_id: Seq<char>,
    error_code: Seq<char>,
    error_description: Seq<char>,
    error_details: JsonValue,
    now: TimestampView,
) -> (SessionView, ActionView) {
    if before.state is Closed {
        (before, ActionView::Dropped(ErrorKind::SessionClosed))
    } else {
        match resolved_call(before.pending, message_id) {
            Some(call) => (
                SessionView {
                    pending: after_resolve(before.pending, message_id),
                    ..before.touched(now.millis)
                },
                ActionView::Completed(
                    CompletionView {
                        call,
                        outcome: OutcomeView::Error { error_code, error_description, error_details },
                    },
                ),
            ),
            None => (
                before.touched(now.millis),
                ActionView::Dropped(ErrorKind::UnsolicitedResponse),
            ),
        }
    }
}

/// What handling a frame does to the session and asks of the caller.
///
/// A Call whose action the registry does not have is answered with one
/// CallError `NotImplemented`, and the session stays as open as it was;
/// it is dropped instead where its message id is that of a Call still
/// being handled.
pub open spec fn frame_step(before: SessionView, frame: Frame, now: TimestampView) -> (
    SessionView,
    ActionView,
) {
    match frame {
        Frame::Call { message_type_id, message_id, action, payload } => {
            if before.state is Closed {
                (before, ActionView::Dropped(ErrorKind::SessionClosed))
            } else {
                match action_named(action) {
                    Some(known) => call_step(
                        before,
                        message_type_id,
                        message_id,
                        known,
                        payload,
                        now,
                    ),
                    None => (
                        before.touched(now.millis),
                        if has_inbound(before.inbound, message_id) {
                            ActionView::Dropped(ErrorKind::DuplicateMessageId)
                        } else {
                            ActionView::Reply(
                                error_frame(
                                    message_id,
                                    OcppErrorCode::NotImplemented,
                                    unknown_action_text(action),
                                ),
                            )
                        },
                    ),
                }
            }
        },
        Frame::CallResult { message_id, payload, .. } => call_result_step(
            before,
            message_id,
            payload,
            now,
        ),
        Frame::CallError {
            message_id,
            error_code,
            error_description,
            error_details,
            ..
        } => call_error_step(
            before,
            message_id,
            error_code,
            error_description,
            error_details,
            now,
        ),
    }
}

/// The message id that can be recovered from a document that may be no
/// frame: that of an array that opens as a Call does, with the number 2
/// and a message id.
pub open spec fn recoverable_call_id(value: JsonValue) -> Option<Seq<char>> {
    match value {
        JsonValue::Array(items) => if items.len() >= 2 && is_number(items[0], 2) && is_message_id(
            items[1],
        ) {
            Some(items[1]->Str_0)
        } else {
            None
        },
        _ => None,
    }
}

/// What a malformed frame does to the session and asks of the caller: one
/// CallError `ProtocolError` where a Call's message id can be recovered
/// and no Call with that message id is being handled; nothing to send
/// otherwise.
pub open spec fn malformed_step(
    before: SessionView,
    recovered: Option<Seq<char>>,
    now: TimestampView,
) -> (SessionView, ActionView) {
    if before.state is Closed {
        (before, ActionView::Dropped(ErrorKind::SessionClosed))
    } else {
        (
            before.touched(now.millis),
            match recovered {
                Some(message_id) => if has_inbound(before.inbound, message_id) {
                    ActionView::Dropped(ErrorKind::MalformedFrame)
                } else {
                    ActionView::Reply(
                        error_frame(message_id, OcppErrorCode::ProtocolError, malformed_text()),
                    )
                },
                None => ActionView::Dropped(ErrorKind::MalformedFrame),
            },
        )
    }
}

/// What handling a document does to the session and asks of the caller.
pub open spec fn value_step(before: SessionView, value: JsonValue, now: TimestampView) -> (
    SessionView,
    ActionView,
) {
    match json_to_frame(value) {
        Ok(frame) => frame_step(before, frame, now),
        Err(_) => malformed_step(before, recoverable_call_id(value), now),
    }
}

/// What handling a text frame does to the session and asks of the caller.
pub open spec fn message_step(before: SessionView, message: Seq<char>, now: TimestampView) -> (
    SessionView,
    ActionView,
) {
    match json_parse(message) {
        Some(value) => value_step(before, value, now),
        None => malformed_step(before, None, now),
    }
}

/// The one frame that answers a Call that was handed to its handler.
///
/// A failure is answered with a CallError that carries it. The answer of
/// the boot policy is answered with the registration status, the current
/// time and the heartbeat interval. A response payload is answered with a
/// CallResult where it has the shape of the action's response. A result
/// that does not fit the action is answered with a CallError
/// `InternalError`.
pub open spec fn completion_reply(
    call: InboundView,
    result: HandlerResultView,
    now: TimestampView,
    interval: nat,
) -> Frame {
    match result {
        HandlerResultView::Failure {
            error_code,
            error_description,
            error_details,
        } => Frame::CallError {
            message_type_id: CALL_ERROR as int,
            message_id: call.message_id,
            error_code,
            error_description,
            error_details,
        },
        HandlerResultView::Boot { accepted } => if call.action
            == OcppActionEnum::BootNotification {
            result_frame(call.message_id, boot_body(accepted, now.text, interval))
        } else {
            error_frame(call.message_id, OcppErrorCode::InternalError, handler_fault_text())
        },
        HandlerResultView::Response(body) => if call.action != OcppActionEnum::BootNotification
            && conforms(body, response_rules(call.action)) {
            result_frame(call.message_id, body)
        } else {
            error_frame(call.message_id, OcppErrorCode::InternalError, handler_fault_text())
        },
    }
}

/// The registration state after a Call has been answered: the answer of
/// the boot policy registers the station as accepted or rejected; a
/// BootNotification that ends in any other way leaves it unregistered;
/// any other Call leaves the state as it was.
pub open spec fn completion_state(
    state: SessionState,
    action: OcppActionEnum,
    result: HandlerResultView,
) -> SessionState {
    if action == OcppActionEnum::BootNotification {
        match result {
            HandlerResultView::Boot { accepted } => SessionState::Registered(
                if accepted {
                    RegistrationStatus::Accepted
                } else {
                    RegistrationStatus::Rejected
                },
            ),
            _ => SessionState::Unregistered,
        }
    } else {
        state
    }
}

/// What a handler's result does to the session, and the reply to send.
/// Where no Call with the message id is being handled, nothing changes
/// and nothing is sent: no message id is answered twice.
pub open spec fn complete_step(
    before: SessionView,
    message_id: Seq<char>,
    result: HandlerResultView,
    now: TimestampView,
) -> (SessionView, Option<Frame>) {
    if has_inbound(before.inbound, message_id) {
        let at = inbound_position(before.inbound, message_id);
        let call = before.inbound[at];
        (
            SessionView {
                state: completion_state(before.state, call.action, result),
                inbound: before.inbound.remove(at),
                ..before
            },
            Some(completion_reply(call, result, now, before.heartbeat_interval)),
        )
    } else {
        (before, None)
    }
}

/// Why a Call could not be sent to the station.
#[derive(Clone, Debug, PartialEq, Eq)]
pub enum SendError {
    /// The session is closed.
    SessionClosed,
    /// The payload does not have the shape of the action's request.
    InvalidPayload(ValidationError),
    /// Every message id has been used.
    MessageIdsExhausted,
}

/// What sending a Call does to the session: the Call is recorded as
/// pending under a message id that no pending call has, and the frame to
/// send carries that message id, the action's name and the payload.
pub open spec fn call_sent(
    before: SessionView,
    action: OcppActionEnum,
    payload: JsonValue,
    timeout_ms: int,
    now: TimestampView,
    after: SessionView,
    call: PendingView,
    frame: Frame,
) -> bool {
    &&& call == PendingView {
        message_id: decimal(before.next_serial),
        serial: before.next_serial,
        action,
        enqueued_at: now.millis,
        deadline: deadline_of(now.millis, timeout_ms),
    }
    &&& !has_id(before.pending, call.message_id)
    &&& after == SessionView {
        pending: before.pending.push(call),
        next_serial: before.next_serial + 1,
        ..before
    }
    &&& frame == Frame::Call {
        message_type_id: CALL as int,
        message_id: call.message_id,
        action: action_name(action),
        payload,
    }
}

/// Answering a Call that is being handled leaves a valid session in which
/// that Call is no longer being handled and every other Call is as before;
/// the reply is an answer, and carries the Call's message id.
pub proof fn lemma_complete_step(
    before: SessionView,
    message_id: Seq<char>,
    result: HandlerResultView,
    now: TimestampView,
)
    requires
        before.wf(),
    ensures
        complete_step(before, message_id, result, now).0.wf(),
        complete_step(before, message_id, result, now).1 is Some == has_inbound(
            before.inbound,
            message_id,
        ),
        complete_step(before, message_id, result, now).1 matches Some(reply) ==> !(reply is Call)
            && reply.message_id() == message_id && reply.valid() == (message_id.len() > 0),
        !has_inbound(complete_step(before, message_id, result, now).0.inbound, message_id),
        forall|other: Seq<char>|
            other != message_id ==> has_inbound(
                complete_step(before, message_id, result, now).0.inbound,
                other,
            ) == has_inbound(before.inbound, other),
        forall|k: int|
            0 <= k < before.inbound.len() && (#[trigger] before.inbound[k]).message_id
                == message_id ==> complete_step(before, message_id, result, now).1 == Some(
                completion_reply(before.inbound[k], result, now, before.heartbeat_interval),
            ),
        forall|k: int|
            0 <= k < before.inbound.len() && (#[trigger] before.inbound[k]).message_id
                != message_id ==> complete_step(before, message_id, result, now).0.inbound.contains(
                before.inbound[k],
            ),
        complete_step(before, message_id, result, now).0.heartbeat_interval
            == before.heartbeat_interval,
        !(before.state is Closed) ==> !(complete_step(before, message_id, result, now).0.state
            is Closed),
{
    assert forall|k: int|
        0 <= k < before.inbound.len() && (#[trigger] before.inbound[k]).message_id
            == message_id implies inbound_position(before.inbound, message_id) == k by {
        let at = inbound_position(before.inbound, message_id);
        if at < k {
            assert(before.inbound[at].message_id != before.inbound[k].message_id);
        } else if k < at {
            assert(before.inbound[k].message_id != before.inbound[at].message_id);
        }
    }
    if has_inbound(before.inbound, message_id) {
        let at = inbound_position(before.inbound, message_id);
        let rest = before.inbound.remove(at);
        assert forall|k: int|
            0 <= k < before.inbound.len() && (#[trigger] before.inbound[k]).message_id
                != message_id implies rest.contains(before.inbound[k]) by {
            if k < at {
                assert(rest[k] == before.inbound[k]);
            } else {
                assert(rest[k - 1] == before.inbound[k]);
            }
        }
        assert forall|k: int| 0 <= k < rest.len() implies #[trigger] rest[k] == before.inbound[if k
            < at {
            k
        } else {
            k + 1
        }] by {}
        assert forall|k: int| 0 <= k < rest.len() implies (#[trigger] rest[k]).message_id
            != message_id by {
            if k < at {
                assert(before.inbound[k].message_id != before.inbound[at].message_id);
            } else {
                assert(before.inbound[at].message_id != before.inbound[k + 1].message_id);
            }
        }
        assert forall|other: Seq<char>| other != message_id implies has_inbound(rest, other)
            == has_inbound(before.inbound, other) by {
            if has_inbound(before.inbound, other) {
                let i = inbound_position(before.inbound, other);
                if i < at {
                    assert(rest[i] == before.inbound[i]);
                } else {
                    assert(rest[i - 1] == before.inbound[i]);
                }
            }
            if has_inbound(rest, other) {
                let k = inbound_position(rest, other);
                assert(rest[k] == before.inbound[if k < at {
                    k
                } else {
                    k + 1
                }]);
            }
        }
        assert(distinct_inbound(rest)) by {
            assert forall|i: int, j: int| 0 <= i < j < rest.len() implies (#[trigger] rest[i]).message_id
                != (#[trigger] rest[j]).message_id by {
                let x = if i < at {
                    i
                } else {
                    i + 1
                };
                let y = if j < at {
                    j
                } else {
                    j + 1
                };
                assert(before.inbound[x].message_id != before.inbound[y].message_id);
            }
        }
    }
}

/// Two Calls of one station that are being handled at the same time, with
/// distinct message ids, are each answered exactly once: each handler's
/// result gives one reply, which carries the message id of its own Call,
/// and after that no result given for either message id gives a reply.
pub proof fn lemma_concurrent_calls_answered_once(
    before: SessionView,
    first: Seq<char>,
    second: Seq<char>,
    first_result: HandlerResultView,
    second_result: HandlerResultView,
    first_now: TimestampView,
    second_now: TimestampView,
)
    requires
        before.wf(),
        first != second,
        has_inbound(before.inbound, first),
        has_inbound(before.inbound, second),
    ensures
        ({
            let (middle, first_reply) = complete_step(before, first, first_result, first_now);
            let (after, second_reply) = complete_step(middle, second, second_result, second_now);
            &&& first_reply matches Some(reply) && reply.message_id() == first && !(reply is Call)
            &&& second_reply matches Some(reply) && reply.message_id() == second && !(reply
                is Call)
            &&& forall|result: HandlerResultView, now: TimestampView|
                (#[trigger] complete_step(after, first, result, now)) == (after, None::<Frame>)
            &&& forall|result: HandlerResultView, now: TimestampView|
                (#[trigger] complete_step(after, second, result, now)) == (after, None::<Frame>)
        }),
{
    lemma_complete_step(before, first, first_result, first_now);
    let middle = complete_step(before, first, first_result, first_now).0;
    lemma_complete_step(middle, second, second_result, second_now);
}

/// Tells whether a Call with the message id `id` has drawn exactly one
/// reply: either `out` is the reply, sent at once, and its handler's
/// result `later` gives none; or `out` hands the Call to its handler and
/// `later` is the reply. The reply is a CallResult or a CallError and
/// carries the message id of the Call.
pub open spec fn answered_once(out: ActionView, later: Option<Frame>, id: Seq<char>) -> bool {
    match out {
        ActionView::Reply(reply) => later is None && reply.message_id() == id && !(reply is Call),
        ActionView::Dispatch(call) => {
            &&& call.message_id == id
            &&& later matches Some(reply)
            &&& reply.message_id() == id
            &&& !(reply is Call)
        },
        _ => false,
    }
}

/// A Call of a known action that comes to an open session, with a
/// message id that no Call being handled has, is answered at once or
/// handed to its handler, and to the handler exactly where it is then
/// among the Calls being handled. What is asked of the caller depends on
/// the Call and the instant alone, not on the session. The other Calls
/// being handled stay as they were.
pub proof fn lemma_call_step(
    before: SessionView,
    message_type_id: int,
    message_id: Seq<char>,
    action: OcppActionEnum,
    payload: JsonValue,
    now: TimestampView,
)
    requires
        before.wf(),
        !(before.state is Closed),
        !has_inbound(before.inbound, message_id),
    ensures
        ({
            let (after, out) = call_step(before, message_type_id, message_id, action, payload, now);
            &&& after.wf()
            &&& !(after.state is Closed)
            &&& after.heartbeat_interval == before.heartbeat_interval
            &&& after.pending == before.pending
            &&& out matches ActionView::Reply(reply) ==> reply.message_id() == message_id && !(reply
                is Call) && after.inbound == before.inbound
            &&& out matches ActionView::Dispatch(call) ==> call.message_id == message_id
                && after.inbound == before.inbound.push(InboundView { message_id, action })
            &&& out is Reply || out is Dispatch
            &&& has_inbound(after.inbound, message_id) == out is Dispatch
            &&& forall|other: Seq<char>|
                other != message_id ==> has_inbound(after.inbound, other) == has_inbound(
                    before.inbound,
                    other,
                )
            &&& forall|other: SessionView|
                !(other.state is Closed) && !has_inbound(other.inbound, message_id) ==> (
                #[trigger] call_step(other, message_type_id, message_id, action, payload, now)).1
                    == out
        }),
{
    let (after, out) = call_step(before, message_type_id, message_id, action, payload, now);
    if out is Dispatch {
        let entry = InboundView { message_id, action };
        assert(after.inbound == before.inbound.push(entry));
        assert(after.inbound[before.inbound.len() as int] == entry);
        assert forall|i: int, j: int| 0 <= i < j < after.inbound.len() implies (
        #[trigger] after.inbound[i]).message_id != (#[trigger] after.inbound[j]).message_id by {
            assert(after.inbound[i] == before.inbound[i]);
            if j < before.inbound.len() {
                assert(after.inbound[j] == before.inbound[j]);
            }
        }
        assert forall|other: Seq<char>| other != message_id implies has_inbound(
            after.inbound,
            other,
        ) == has_inbound(before.inbound, other) by {
            if has_inbound(before.inbound, other) {
                let k = inbound_position(before.inbound, other);
                assert(after.inbound[k] == before.inbound[k]);
            }
            if has_inbound(after.inbound, other) {
                let k = inbound_position(after.inbound, other);
                assert(k < before.inbound.len());
                assert(after.inbound[k] == before.inbound[k]);
            }
        }
    }
}

/// Two Calls of known actions that come to an open session one after the
/// other, with distinct message ids that no Call being handled has, are
/// each answered exactly once, and the results of their handlers may come
/// in either order.
///
/// Each Call is answered at once or handed to its handler, and then
/// answered by the handler's result. Each reply is one CallResult or
/// CallError and carries the message id of its own Call. What is sent for
/// one Call does not depend on the other: it is what the session would
/// have sent had the other Call not come, and it is the same in either
/// order of the results. After both results, no result given for either
/// message id draws a reply.
pub proof fn lemma_two_calls_each_answered_once(
    before: SessionView,
    first: Frame,
    second: Frame,
    first_now: TimestampView,
    second_now: TimestampView,
    first_result: HandlerResultView,
    second_result: HandlerResultView,
    first_done: TimestampView,
    second_done: TimestampView,
)
    requires
        before.wf(),
        !(before.state is Closed),
        first is Call,
        second is Call,
        action_named(first->Call_action) is Some,
        action_named(second->Call_action) is Some,
        first.message_id() != second.message_id(),
        !has_inbound(before.inbound, first.message_id()),
        !has_inbound(before.inbound, second.message_id()),
    ensures
        ({
            let a = first.message_id();
            let b = second.message_id();
            let (after_first, first_out) = frame_step(before, first, first_now);
            let (arrived, second_out) = frame_step(after_first, second, second_now);
            let (half, first_reply) = complete_step(arrived, a, first_result, first_done);
            let (done, second_reply) = complete_step(half, b, second_result, second_done);
            let (other_half, second_early) = complete_step(arrived, b, second_result, second_done);
            let (other_done, first_late) = complete_step(other_half, a, first_result, first_done);
            &&& answered_once(first_out, first_reply, a)
            &&& answered_once(second_out, second_reply, b)
            &&& first_late == first_reply
            &&& second_early == second_reply
            &&& second_out == frame_step(before, second, second_now).1
            &&& first_out is Dispatch ==> first_reply == Some(
                completion_reply(
                    InboundView { message_id: a, action: action_named(first->Call_action)->Some_0 },
                    first_result,
                    first_done,
                    before.heartbeat_interval,
                ),
            )
            &&& second_out is Dispatch ==> second_reply == Some(
                completion_reply(
                    InboundView { message_id: b, action: action_named(second->Call_action)->Some_0 },
                    second_result,
                    second_done,
                    before.heartbeat_interval,
                ),
            )
            &&& forall|result: HandlerResultView, now: TimestampView|
                (#[trigger] complete_step(done, a, result, now)).1 is None
            &&& forall|result: HandlerResultView, now: TimestampView|
                (#[trigger] complete_step(done, b, result, now)).1 is None
            &&& forall|result: HandlerResultView, now: TimestampView|
                (#[trigger] complete_step(other_done, a, result, now)).1 is None
            &&& forall|result: HandlerResultView, now: TimestampView|
                (#[trigger] complete_step(other_done, b, result, now)).1 is None
        }),
{
    let a = first.message_id();
    let b = second.message_id();
    let first_action = action_named(first->Call_action)->Some_0;
    let second_action = action_named(second->Call_action)->Some_0;
    let first_entry = InboundView { message_id: a, action: first_action };
    let second_entry = InboundView { message_id: b, action: second_action };
    lemma_call_step(
        before,
        first->Call_message_type_id,
        a,
        first_action,
        first->Call_payload,
        first_now,
    );
    let (after_first, first_out) = frame_step(before, first, first_now);
    lemma_call_step(
        after_first,
        second->Call_message_type_id,
        b,
        second_action,
        second->Call_payload,
        second_now,
    );
    let (arrived, second_out) = frame_step(after_first, second, second_now);
    assert(second_out == call_step(
        before,
        second->Call_message_type_id,
        b,
        second_action,
        second->Call_payload,
        second_now,
    ).1);
    if first_out is Dispatch {
        assert(after_first.inbound[before.inbound.len() as int] == first_entry);
        if second_out is Dispatch {
            assert(arrived.inbound[before.inbound.len() as int] == first_entry);
        }
    }
    if second_out is Dispatch {
        assert(arrived.inbound[arrived.inbound.len() - 1] == second_entry);
    }
    lemma_complete_step(arrived, a, first_result, first_done);
    let (half, first_reply) = complete_step(arrived, a, first_result, first_done);
    lemma_complete_step(half, b, second_result, second_done);
    let (done, second_reply) = complete_step(half, b, second_result, second_done);
    lemma_complete_step(arrived, b, second_result, second_done);
    let (other_half, second_early) = complete_step(arrived, b, second_result, second_done);
    lemma_complete_step(other_half, a, first_result, first_done);
    let (other_done, first_late) = complete_step(other_half, a, first_result, first_done);
    if second_out is Dispatch {
        assert(half.inbound.contains(second_entry));
        let k = choose|k: int| 0 <= k < half.inbound.len() && half.inbound[k] == second_entry;
        assert(half.inbound[k].message_id == b);
    }
    if first_out is Dispatch {
        assert(other_half.inbound.contains(first_entry));
        let k = choose|k: int|
            0 <= k < other_half.inbound.len() && other_half.inbound[k] == first_entry;
        assert(other_half.inbound[k].message_id == a);
    }
    assert forall|result: HandlerResultView, now: TimestampView|
        (#[trigger] complete_step(done, a, result, now)).1 is None by {
        lemma_complete_step(done, a, result, now);
    }
    assert forall|result: HandlerResultView, now: TimestampView|
        (#[trigger] complete_step(done, b, result, now)).1 is None by {
        lemma_complete_step(done, b, result, now);
    }
    assert forall|result: HandlerResultView, now: TimestampView|
        (#[trigger] complete_step(other_done, a, result, now)).1 is None by {
        lemma_complete_step(other_done, a, result, now);
    }
    assert forall|result: HandlerResultView, now: TimestampView|
        (#[trigger] complete_step(other_done, b, result, now)).1 is None by {
        lemma_complete_step(other_done, b, result, now);
    }
}

/// A Heartbeat is answered at once with the current time, whatever the
/// state of the registration, and leaves that state as it was.
pub proof fn lemma_heartbeat_is_always_answered(
    before: SessionView,
    message_type_id: int,
    message_id: Seq<char>,
    now: TimestampView,
)
    requires
        !(before.state is Closed),
        !has_inbound(before.inbound, message_id),
    ensures
        frame_step(
            before,
            Frame::Call {
                message_type_id,
                message_id,
                action: action_name(OcppActionEnum::Heartbeat),
                payload: JsonValue::Object(seq![]),
            },
            now,
        ) == (
            before.touched(now.millis),
            ActionView::Reply(result_frame(message_id, heartbeat_body(now.text))),
        ),
        before.touched(now.millis).state == before.state,
{
    crate::action::lemma_action_name_round_trip(OcppActionEnum::Heartbeat);
    assert(request_rules(OcppActionEnum::Heartbeat) =~= seq![]);
    crate::payload::lemma_first_fault(
        JsonValue::Object(seq![]),
        request_rules(OcppActionEnum::Heartbeat),
    );
}

/// A Call whose action the registry does not have is answered with one
/// CallError `NotImplemented` that carries its message id, and the
/// session stays open, in the state it was in.
pub proof fn lemma_unknown_action_is_not_implemented(
    before: SessionView,
    message_type_id: int,
    message_id: Seq<char>,
    action: Seq<char>,
    payload: JsonValue,
    now: TimestampView,
)
    requires
        !(before.state is Closed),
        !has_inbound(before.inbound, message_id),
        action_named(action) is None,
    ensures
        frame_step(before, Frame::Call { message_type_id, message_id, action, payload }, now) == (
            before.touched(now.millis),
            ActionView::Reply(
                error_frame(
                    message_id,
                    OcppErrorCode::NotImplemented,
                    unknown_action_text(action),
                ),
            ),
        ),
        before.touched(now.millis).state == before.state,
        !(before.touched(now.millis).state is Closed),
{
}

/// A CallResult whose message id was never issued, or is no longer
/// pending, resolves nothing: it is dropped as unsolicited and the table
/// of pending calls is as it was.
pub proof fn lemma_unsolicited_result_is_dropped(
    before: SessionView,
    message_type_id: int,
    message_id: Seq<char>,
    payload: JsonValue,
    now: TimestampView,
)
    requires
        !(before.state is Closed),
        !has_id(before.pending, message_id),
    ensures
        frame_step(before, Frame::CallResult { message_type_id, message_id, payload }, now) == (
            before.touched(now.millis),
            ActionView::Dropped(ErrorKind::UnsolicitedResponse),
        ),
        before.touched(now.millis).pending == before.pending,
{
}

/// A pending call that got no answer in time ends once, by its timeout: a
/// CallResult that comes late for it, after the table has expired it, is
/// dropped as unsolicited and changes no pending call.
pub proof fn lemma_late_result_after_timeout_is_dropped(
    before: SessionView,
    expired_at: int,
    k: int,
    message_type_id: int,
    payload: JsonValue,
    now: TimestampView,
)
    requires
        before.wf(),
        !(before.state is Closed),
        0 <= k < due(before.pending, expired_at).len(),
    ensures
        ({
            let expired = SessionView { pending: not_due(before.pending, expired_at), ..before };
            frame_step(
                expired,
                Frame::CallResult {
                    message_type_id,
                    message_id: due(before.pending, expired_at)[k].message_id,
                    payload,
                },
                now,
            ) == (expired.touched(now.millis), ActionView::Dropped(ErrorKind::UnsolicitedResponse))
        }),
{
    crate::correlation::lemma_late_answer_after_timeout_is_ignored(before.pending, expired_at, k);
}

/// Whatever frame comes, the session stays valid: the message ids of the
/// pending calls stay distinct, and so do those of the Calls being
/// handled.
pub proof fn lemma_frame_step_keeps_validity(before: SessionView, frame: Frame, now: TimestampView)
    requires
        before.wf(),
    ensures
        frame_step(before, frame, now).0.wf(),
{
    let after = frame_step(before, frame, now).0;
    match frame {
        Frame::Call { message_id, action, .. } => {
            if !(before.state is Closed) && !has_inbound(before.inbound, message_id) {
                if after.inbound.len() > before.inbound.len() {
                    assert forall|i: int, j: int| 0 <= i < j < after.inbound.len() implies (
                    #[trigger] after.inbound[i]).message_id != (
                    #[trigger] after.inbound[j]).message_id by {
                        if j < before.inbound.len() {
                            assert(after.inbound[i] == before.inbound[i]);
                            assert(after.inbound[j] == before.inbound[j]);
                        } else {
                            assert(after.inbound[i] == before.inbound[i]);
                            assert(after.inbound[j].message_id == message_id);
                        }
                    }
                }
            }
        },
        Frame::CallResult { message_id, .. } => {
            lemma_after_resolve(before.pending, message_id);
        },
        Frame::CallError { message_id, .. } => {
            lemma_after_resolve(before.pending, message_id);
        },
    }
}

/// Whatever text comes, the session stays valid.
pub proof fn lemma_message_step_keeps_validity(
    before: SessionView,
    message: Seq<char>,
    now: TimestampView,
)
    requires
        before.wf(),
    ensures
        message_step(before, message, now).0.wf(),
{
    match json_parse(message) {
        Some(value) => {
            match json_to_frame(value) {
                Ok(frame) => {
                    lemma_frame_step_keeps_validity(before, frame, now);
                },
                Err(_) => {},
            }
        },
        None => {},
    }
}

/// A Call that is sent leaves the session valid: its message id is not
/// that of any call that was pending.
pub proof fn lemma_call_sent_keeps_validity(
    before: SessionView,
    action: OcppActionEnum,
    payload: JsonValue,
    timeout_ms: int,
    now: TimestampView,
    after: SessionView,
    call: PendingView,
    frame: Frame,
)
    requires
        before.wf(),
        !(before.state is Closed),
        call_sent(before, action, payload, timeout_ms, now, after, call, frame),
    ensures
        after.wf(),
        frame.valid(),
{
    assert forall|i: int, j: int| 0 <= i < j < after.pending.len() implies (
    #[trigger] after.pending[i]).message_id != (#[trigger] after.pending[j]).message_id by {
        assert(after.pending[i] == before.pending[i]);
        if j < before.pending.len() {
            assert(after.pending[j] == before.pending[j]);
        }
    }
    assert forall|i: int| 0 <= i < after.pending.len() implies (
    #[trigger] after.pending[i]).message_id == decimal(after.pending[i].serial)
        && after.pending[i].serial < after.next_serial by {
        if i < before.pending.len() {
            assert(after.pending[i] == before.pending[i]);
        }
    }
    crate::text::lemma_decimal_len(before.next_serial);
}

} // verus!
