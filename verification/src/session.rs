//! The station session: one station's connection, the state of its
//! registration, the Calls it has sent that are being handled, and the
//! Calls sent to it that wait for their answer. Every entry point takes an
//! event and gives back what to do next; nothing here touches a socket.

use vstd::prelude::*;
use crate::action::{request_fields, request_rules, response_fields, OcppActionEnum};
use crate::clock::{rfc3339_text, Timestamp};
use crate::correlation::{
    after_resolve, all_ended, completions_view, due, has_id, lemma_due_members, not_due,
    pending_view, resolved_call, CallOutcome, CallTable, Completion, CompletionView, ErrorKind,
    OutcomeView, PendingCall,
};
use crate::dispatch::{
    boot_body, call_error_step, call_result_step, call_sent, call_step, complete_step,
    distinct_inbound, frame_step, handler_fault_text, has_inbound, heartbeat_body,
    inbound_position, inbound_view, malformed_step, message_step, mismatch_text,
    recoverable_call_id, value_step, HandlerResult, InboundCall, InboundView, RegistrationStatus,
    SendError, SessionAction, SessionState, SessionView,
};
use crate::frame::{
    decode_value, lemma_type_id_numerals, OcppMessageType, CALL, CALL_ERROR, CALL_RESULT,
};
use crate::json::{items_view, members_view, Json};
use crate::message::{error_frame, OcppCall, OcppCallError, OcppErrorCode};
use crate::payload::{
    check_shape, conforms, first_fault, type_fault, OcppPayload, PayloadKind, ValidationError,
};
use crate::text::{decimal_string, str_eq};

verus! {

/// Among Calls with distinct message ids, a Call found by its message id
/// is the one that its handler's result answers.
proof fn lemma_inbound_position(inbound: Seq<InboundView>, i: int, id: Seq<char>)
    requires
        distinct_inbound(inbound),
        0 <= i < inbound.len(),
        inbound[i].message_id == id,
    ensures
        has_inbound(inbound, id),
        inbound_position(inbound, id) == i,
{
    let at = inbound_position(inbound, id);
    if at < i {
        assert(inbound[at].message_id != inbound[i].message_id);
    } else if i < at {
        assert(inbound[i].message_id != inbound[at].message_id);
    }
}

/// One station's session.
#[derive(Debug)]
pub struct StationSession {
    station_id: String,
    state: SessionState,
    calls: CallTable,
    inbound: Vec<InboundCall>,
    last_activity: i64,
    heartbeat_interval: u32,
}

impl View for StationSession {
    type V = SessionView;

    closed spec fn view(&self) -> SessionView {
        SessionView {
            station_id: self.station_id@,
            state: self.state,
            pending: self.calls@,
            next_serial: self.calls.next_serial(),
            inbound: inbound_view(self.inbound@),
            last_activity: self.last_activity as int,
            heartbeat_interval: self.heartbeat_interval as nat,
        }
    }
}

/// Builds the payload of the response to a Heartbeat. The time that it
/// carries is the text that writes the instant.
pub fn heartbeat_response(now: &Timestamp) -> (body: Json)
    ensures
        body@ == heartbeat_body(now@.text),
        rfc3339_text(now@.millis) == Some(now@.text),
{
    let mut members: Vec<(String, Json)> = Vec::new();
    members.push(("currentTime".to_owned(), Json::Str(now.text().clone())));
    assert(members_view(members@) =~= heartbeat_body(now@.text)->Object_0);
    Json::Object(members)
}

/// Builds the payload of the response to a BootNotification. The time
/// that it carries is the text that writes the instant.
pub fn boot_response(accepted: bool, now: &Timestamp, interval: u32) -> (body: Json)
    ensures
        body@ == boot_body(accepted, now@.text, interval as nat),
        rfc3339_text(now@.millis) == Some(now@.text),
{
    let status = if accepted {
        "Accepted".to_owned()
    } else {
        "Rejected".to_owned()
    };
    let mut members: Vec<(String, Json)> = Vec::new();
    members.push(("currentTime".to_owned(), Json::Str(now.text().clone())));
    members.push(("interval".to_owned(), Json::Number(decimal_string(interval as u64))));
    members.push(("status".to_owned(), Json::Str(status)));
    assert(members_view(members@) =~= boot_body(accepted, now@.text, interval as nat)->Object_0);
    Json::Object(members)
}

/// Builds the description of a CallError for a schema mismatch.
fn mismatch_description(field: String, expected: &str) -> (text: String)
    ensures
        text@ == mismatch_text(field@, expected@),
{
    let mut text = field;
    text.append(": expected ");
    text.append(expected);
    text
}

impl StationSession {
    /// What always holds of a session: the invariant of its view.
    #[verifier::type_invariant]
    closed spec fn inv(&self) -> bool {
        self@.wf()
    }

    /// The session of a station whose socket has just been opened at
    /// `now`: unregistered, with no call pending and none being handled.
    pub fn new(station_id: String, heartbeat_interval: u32, now: &Timestamp) -> (session:
        StationSession)
        ensures
            session@.wf(),
            session@ == (SessionView {
                station_id: station_id@,
                state: SessionState::Unregistered,
                pending: Seq::empty(),
                next_serial: 1,
                inbound: Seq::empty(),
                last_activity: now@.millis,
                heartbeat_interval: heartbeat_interval as nat,
            }),
    {
        let calls = CallTable::new();
        assert(calls@ =~= Seq::empty());
        let session = StationSession {
            station_id,
            state: SessionState::Unregistered,
            calls,
            inbound: Vec::new(),
            last_activity: now.millis(),
            heartbeat_interval,
        };
        assert(session@.pending =~= Seq::empty());
        assert(session@.inbound =~= Seq::empty());
        session
    }

    /// The station's identifier.
    pub fn station_id(&self) -> (id: &String)
        ensures
            id@ == self@.station_id,
    {
        &self.station_id
    }

    /// The state of the station's registration.
    pub fn state(&self) -> (state: SessionState)
        ensures
            state == self@.state,
    {
        self.state
    }

    /// When the last frame came from the station, in milliseconds.
    pub fn last_activity(&self) -> (millis: i64)
        ensures
            millis == self@.last_activity,
    {
        self.last_activity
    }

    /// The number of Calls sent to the station that wait for their answer.
    pub fn pending_len(&self) -> (count: usize)
        ensures
            count == self@.pending.len(),
    {
        self.calls.len()
    }

    /// The number of Calls of the station that are being handled.
    pub fn inbound_len(&self) -> (count: usize)
        ensures
            count == self@.inbound.len(),
    {
        self.inbound.len()
    }

    /// Tells whether the station has been silent for more than `limit_ms`
    /// milliseconds at `now`.
    pub fn is_idle(&self, now: &Timestamp, limit_ms: u32) -> (idle: bool)
        ensures
            idle == (now@.millis - self@.last_activity > limit_ms),
    {
        let last: i128 = self.last_activity as i128;
        let current: i128 = now.millis() as i128;
        current - last > limit_ms as i128
    }

    /// Finds the Call being handled that has the message id `message_id`.
    fn inbound_index(&self, message_id: &str) -> (found: Option<usize>)
        ensures
            found is Some == has_inbound(self@.inbound, message_id@),
            found matches Some(i) ==> i < self.inbound.len() && self@.inbound[i as int].message_id
                == message_id@,
    {
        let mut i: usize = 0;
        while i < self.inbound.len()
            invariant
                i <= self.inbound.len(),
                forall|k: int| 0 <= k < i ==> self.inbound[k].message_id@ != message_id@,
            decreases self.inbound.len() - i,
        {
            if str_eq(self.inbound[i].message_id.as_str(), message_id) {
                assert(self@.inbound[i as int].message_id == message_id@);
                return Some(i);
            }
            i = i + 1;
        }
        assert forall|k: int| 0 <= k < self@.inbound.len() implies (#[trigger] self@.inbound[k]).message_id
            != message_id@ by {
            assert(self.inbound[k].message_id@ != message_id@);
        }
        None
    }

    /// Handles a Call of the station whose action the registry has.
    pub fn handle_ocpp_call(
        &mut self,
        message_type_id: usize,
        message_id: String,
        action: OcppActionEnum,
        payload: Json,
        now: &Timestamp,
    ) -> (out: SessionAction)
        ensures
            final(self)@.wf(),
            (final(self)@, out@) == call_step(
                old(self)@,
                message_type_id as int,
                message_id@,
                action,
                payload@,
                now@,
            ),
    {
        proof {
            use_type_invariant(&*self);
        }
        match self.state {
            SessionState::Closed => {
                return SessionAction::Dropped(ErrorKind::SessionClosed);
            },
            _ => {},
        }
        self.last_activity = now.millis();
        if self.inbound_index(message_id.as_str()).is_some() {
            return SessionAction::Dropped(ErrorKind::DuplicateMessageId);
        }
        let rules = request_fields(action);
        match check_shape(&payload, &rules) {
            Err(ValidationError::SchemaMismatch { field, expected }) => {
                let code = if type_fault(&payload, &rules, field.as_str()) {
                    OcppErrorCode::TypeConstraintViolation
                } else {
                    OcppErrorCode::FormationViolation
                };
                let description = mismatch_description(field, expected.as_str());
                let error = OcppCallError::new(message_id, code, description);
                return SessionAction::Reply(error.into_frame());
            },
            Ok(()) => {},
        }
        match action {
            OcppActionEnum::Heartbeat => {
                return SessionAction::Reply(
                    OcppMessageType::CallResult(CALL_RESULT, message_id, heartbeat_response(now)),
                );
            },
            OcppActionEnum::BootNotification => {
                self.state = SessionState::AwaitingBoot;
            },
            _ => {},
        }
        let ghost before = self@.inbound;
        let mut inbound: Vec<InboundCall> = Vec::new();
        std::mem::swap(&mut self.inbound, &mut inbound);
        inbound.push(InboundCall { message_id: message_id.clone(), action });
        assert(inbound_view(inbound@) =~= before.push(
            InboundView { message_id: message_id@, action },
        ));
        assert forall|i: int, j: int| 0 <= i < j < inbound@.len() implies (#[trigger] inbound_view(
            inbound@,
        )[i]).message_id != (#[trigger] inbound_view(inbound@)[j]).message_id by {
            assert(inbound_view(inbound@)[i] == before[i]);
            if j < before.len() {
                assert(inbound_view(inbound@)[j] == before[j]);
            }
        }
        self.inbound = inbound;
        SessionAction::Dispatch(
            OcppCall {
                message_type_id,
                message_id,
                action,
                payload: OcppPayload::tagged(action, PayloadKind::Request, payload),
            },
        )
    }

    /// Takes the pending call with the message id `message_id` out of the
    /// table, where there is one; the frame that answers it has come.
    fn take_pending(&mut self, message_id: &str, now: &Timestamp) -> (taken: Result<
        PendingCall,
        ErrorKind,
    >)
        ensures
            final(self)@.wf(),
            match taken {
                Ok(call) => {
                    &&& !(old(self)@.state is Closed)
                    &&& has_id(old(self)@.pending, message_id@)
                    &&& resolved_call(old(self)@.pending, message_id@) == Some(call@)
                    &&& final(self)@ == SessionView {
                        pending: after_resolve(old(self)@.pending, message_id@),
                        ..old(self)@.touched(now@.millis)
                    }
                },
                Err(kind) => if old(self)@.state is Closed {
                    kind == ErrorKind::SessionClosed && final(self)@ == old(self)@
                } else {
                    kind == ErrorKind::UnsolicitedResponse && !has_id(
                        old(self)@.pending,
                        message_id@,
                    ) && final(self)@ == old(self)@.touched(now@.millis)
                },
            },
    {
        proof {
            use_type_invariant(&*self);
        }
        match self.state {
            SessionState::Closed => {
                return Err(ErrorKind::SessionClosed);
            },
            _ => {},
        }
        self.last_activity = now.millis();
        // The table is taken out while it changes: what always holds of
        // the session holds with an empty table in between.
        let mut calls = CallTable::new();
        std::mem::swap(&mut self.calls, &mut calls);
        let resolved = calls.resolve(message_id);
        self.calls = calls;
        match resolved {
            Some(call) => Ok(call),
            None => Err(ErrorKind::UnsolicitedResponse),
        }
    }

    /// Handles a CallResult of the station.
    pub fn handle_ocpp_call_result(
        &mut self,
        message_type_id: usize,
        message_id: String,
        payload: Json,
        now: &Timestamp,
    ) -> (out: SessionAction)
        ensures
            final(self)@.wf(),
            (final(self)@, out@) == call_result_step(old(self)@, message_id@, payload@, now@),
    {
        let call = match self.take_pending(message_id.as_str(), now) {
            Ok(call) => call,
            Err(kind) => {
                return SessionAction::Dropped(kind);
            },
        };
        let rules = response_fields(call.action);
        let outcome = match check_shape(&payload, &rules) {
            Ok(()) => CallOutcome::Result(
                OcppPayload::tagged(call.action, PayloadKind::Response, payload),
            ),
            Err(error) => CallOutcome::Invalid(error),
        };
        SessionAction::Completed(Completion { call, outcome })
    }

    /// Handles a CallError of the station.
    pub fn handle_ocpp_call_error(
        &mut self,
        message_type_id: usize,
        message_id: String,
        error_code: String,
        error_description: String,
        error_details: Json,
        now: &Timestamp,
    ) -> (out: SessionAction)
        ensures
            final(self)@.wf(),
            (final(self)@, out@) == call_error_step(
                old(self)@,
                message_id@,
                error_code@,
                error_description@,
                error_details@,
                now@,
            ),
    {
        let call = match self.take_pending(message_id.as_str(), now) {
            Ok(call) => call,
            Err(kind) => {
                return SessionAction::Dropped(kind);
            },
        };
        SessionAction::Completed(
            Completion {
                call,
                outcome: CallOutcome::Error { error_code, error_description, error_details },
            },
        )
    }

    /// Handles a frame of the station: a Call is looked up in the registry
    /// and handled by its action, an answer is matched with the pending
    /// call that it answers.
    pub fn handle_frame(&mut self, frame: OcppMessageType, now: &Timestamp) -> (out: SessionAction)
        ensures
            final(self)@.wf(),
            (final(self)@, out@) == frame_step(old(self)@, frame@, now@),
    {
        proof {
            use_type_invariant(&*self);
        }
        match frame {
            OcppMessageType::Call(message_type_id, message_id, action, payload) => {
                match self.state {
                    SessionState::Closed => {
                        return SessionAction::Dropped(ErrorKind::SessionClosed);
                    },
                    _ => {},
                }
                match OcppActionEnum::from_name(action.as_str()) {
                    Some(known) => self.handle_ocpp_call(
                        message_type_id,
                        message_id,
                        known,
                        payload,
                        now,
                    ),
                    None => {
                        self.last_activity = now.millis();
                        if self.inbound_index(message_id.as_str()).is_some() {
                            return SessionAction::Dropped(ErrorKind::DuplicateMessageId);
                        }
                        let mut description = "Unknown OCPP action: ".to_owned();
                        description.append(action.as_str());
                        let error = OcppCallError::new(
                            message_id,
                            OcppErrorCode::NotImplemented,
                            description,
                        );
                        SessionAction::Reply(error.into_frame())
                    },
                }
            },
            OcppMessageType::CallResult(
                message_type_id,
                message_id,
                payload,
            ) => self.handle_ocpp_call_result(message_type_id, message_id, payload, now),
            OcppMessageType::CallError(
                message_type_id,
                message_id,
                error_code,
                error_description,
                error_details,
            ) => self.handle_ocpp_call_error(
                message_type_id,
                message_id,
                error_code,
                error_description,
                error_details,
                now,
            ),
        }
    }

    /// Handles a frame that is malformed.
    fn handle_malformed(&mut self, recovered: Option<String>, now: &Timestamp) -> (out:
        SessionAction)
        ensures
            final(self)@.wf(),
            (final(self)@, out@) == malformed_step(
                old(self)@,
                match recovered {
                    Some(id) => Some(id@),
                    None => None,
                },
                now@,
            ),
    {
        proof {
            use_type_invariant(&*self);
        }
        match self.state {
            SessionState::Closed => {
                return SessionAction::Dropped(ErrorKind::SessionClosed);
            },
            _ => {},
        }
        self.last_activity = now.millis();
        match recovered {
            Some(message_id) => {
                if self.inbound_index(message_id.as_str()).is_some() {
                    return SessionAction::Dropped(ErrorKind::MalformedFrame);
                }
                let error = OcppCallError::new(
                    message_id,
                    OcppErrorCode::ProtocolError,
                    "Malformed frame".to_owned(),
                );
                SessionAction::Reply(error.into_frame())
            },
            None => SessionAction::Dropped(ErrorKind::MalformedFrame),
        }
    }

    /// Handles a document that the station has sent: the frame that it
    /// carries, or a malformed frame.
    pub fn handle_value(&mut self, value: Json, now: &Timestamp) -> (out: SessionAction)
        ensures
            final(self)@.wf(),
            (final(self)@, out@) == value_step(old(self)@, value@, now@),
    {
        let recovered = recover_call_id(&value);
        match decode_value(value) {
            Ok(frame) => self.handle_frame(frame, now),
            Err(_) => self.handle_malformed(recovered, now),
        }
    }

    /// Handles a text frame of the station, received at `now`.
    pub fn handle_ocpp_messages(&mut self, message: &str, now: &Timestamp) -> (out: SessionAction)
        ensures
            final(self)@.wf(),
            (final(self)@, out@) == message_step(old(self)@, message@, now@),
            final(self)@.station_id == old(self)@.station_id,
            final(self)@.state is Closed == old(self)@.state is Closed,
    {
        match Json::parse(message) {
            Some(value) => self.handle_value(value, now),
            None => self.handle_malformed(None, now),
        }
    }

    /// Takes what a handler gives back for the Call with the message id
    /// `message_id`, and gives the one frame that answers the Call. Where
    /// no such Call is being handled, there is nothing to send.
    pub fn complete(&mut self, message_id: &str, result: HandlerResult, now: &Timestamp) -> (reply:
        Option<OcppMessageType>)
        ensures
            final(self)@.wf(),
            final(self)@ == complete_step(old(self)@, message_id@, result@, now@).0,
            reply is Some == complete_step(old(self)@, message_id@, result@, now@).1 is Some,
            reply matches Some(frame) ==> complete_step(old(self)@, message_id@, result@, now@).1
                == Some(frame@),
            final(self)@.station_id == old(self)@.station_id,
            final(self)@.state is Closed == old(self)@.state is Closed,
    {
        proof {
            use_type_invariant(&*self);
        }
        let at = match self.inbound_index(message_id) {
            Some(at) => at,
            None => {
                return None;
            },
        };
        proof {
            lemma_inbound_position(self@.inbound, at as int, message_id@);
        }
        let ghost before = self@.inbound;
        let mut inbound: Vec<InboundCall> = Vec::new();
        std::mem::swap(&mut self.inbound, &mut inbound);
        let call = inbound.remove(at);
        assert(call@ == before[at as int]);
        assert(inbound_view(inbound@) =~= before.remove(at as int));
        proof {
            let rest = inbound_view(inbound@);
            assert forall|k: int| 0 <= k < rest.len() implies #[trigger] rest[k] == before[if k
                < at {
                k
            } else {
                k + 1
            }] by {}
            assert forall|i: int, j: int| 0 <= i < j < rest.len() implies (#[trigger] rest[i]).message_id
                != (#[trigger] rest[j]).message_id by {
                let x = if i < at {
                    i
                } else {
                    i + 1
                };
                let y = if j < at {
                    j
                } else {
                    j + 1
                };
                assert(before[x].message_id != before[y].message_id);
            }
        }
        self.inbound = inbound;
        let is_boot = match call.action {
            OcppActionEnum::BootNotification => true,
            _ => false,
        };
        if is_boot {
            self.state = match result {
                HandlerResult::Boot { accepted } => SessionState::Registered(
                    if accepted {
                        RegistrationStatus::Accepted
                    } else {
                        RegistrationStatus::Rejected
                    },
                ),
                _ => SessionState::Unregistered,
            };
        }
        let frame = match result {
            HandlerResult::Failure {
                error_code,
                error_description,
                error_details,
            } => OcppMessageType::CallError(
                CALL_ERROR,
                call.message_id,
                error_code.into_text(),
                error_description,
                error_details,
            ),
            HandlerResult::Boot { accepted } => {
                if is_boot {
                    OcppMessageType::CallResult(
                        CALL_RESULT,
                        call.message_id,
                        boot_response(accepted, now, self.heartbeat_interval),
                    )
                } else {
                    handler_fault(call.message_id)
                }
            },
            HandlerResult::Response(body) => {
                if !is_boot && check_shape(&body, &response_fields(call.action)).is_ok() {
                    OcppMessageType::CallResult(CALL_RESULT, call.message_id, body)
                } else {
                    handler_fault(call.message_id)
                }
            },
        };
        Some(frame)
    }

    /// Sends a Call to the station at `now`: validates the payload as the
    /// request of the action, records the Call as pending under a fresh
    /// message id with its deadline, and gives the pending call and the
    /// frame to send. On an error nothing changes.
    pub fn send_call(
        &mut self,
        action: OcppActionEnum,
        payload: Json,
        timeout_ms: u32,
        now: &Timestamp,
    ) -> (sent: Result<(PendingCall, OcppMessageType), SendError>)
        ensures
            final(self)@.station_id == old(self)@.station_id,
            final(self)@.state is Closed == old(self)@.state is Closed,
            final(self)@.wf(),
            sent is Ok == (!(old(self)@.state is Closed) && conforms(payload@, request_rules(action))
                && old(self)@.next_serial < u64::MAX),
            sent matches Ok((call, frame)) ==> call_sent(
                old(self)@,
                action,
                payload@,
                timeout_ms as int,
                now@,
                final(self)@,
                call@,
                frame@,
            ),
            sent is Err ==> final(self)@ == old(self)@,
            sent matches Err(SendError::SessionClosed) ==> old(self)@.state is Closed,
            sent matches Err(SendError::InvalidPayload(error)) ==> !(old(self)@.state is Closed)
                && first_fault(payload@, request_rules(action)) == Some(error@),
            sent matches Err(SendError::MessageIdsExhausted) ==> !(old(self)@.state is Closed)
                && conforms(payload@, request_rules(action)),
    {
        proof {
            use_type_invariant(&*self);
        }
        match self.state {
            SessionState::Closed => {
                return Err(SendError::SessionClosed);
            },
            _ => {},
        }
        match check_shape(&payload, &request_fields(action)) {
            Ok(()) => {},
            Err(error) => {
                return Err(SendError::InvalidPayload(error));
            },
        }
        let mut calls = CallTable::new();
        std::mem::swap(&mut self.calls, &mut calls);
        let issued = calls.issue(action, now.millis(), timeout_ms);
        self.calls = calls;
        match issued {
            Ok(call) => {
                let frame = OcppMessageType::Call(
                    CALL,
                    call.message_id.clone(),
                    action.name().to_owned(),
                    payload,
                );
                Ok((call, frame))
            },
            Err(_) => Err(SendError::MessageIdsExhausted),
        }
    }

    /// Expires the pending calls whose deadline has come at `now`: each
    /// leaves the table and ends with a timeout. The socket stays open.
    pub fn expire(&mut self, now: &Timestamp) -> (expired: Vec<Completion>)
        ensures
            final(self)@.station_id == old(self)@.station_id,
            final(self)@.state is Closed == old(self)@.state is Closed,
            final(self)@.wf(),
            final(self)@ == (SessionView {
                pending: not_due(old(self)@.pending, now@.millis),
                ..old(self)@
            }),
            completions_view(expired@) == all_ended(
                due(old(self)@.pending, now@.millis),
                OutcomeView::Timeout,
            ),
    {
        proof {
            use_type_invariant(&*self);
        }
        let ghost before = self@.pending;
        let mut calls = CallTable::new();
        std::mem::swap(&mut self.calls, &mut calls);
        let expired = calls.expire(now.millis());
        proof {
            lemma_due_members(before, now@.millis);
            if old(self)@.state is Closed {
                assert(before.len() == 0);
                assert(calls@.len() == 0);
            }
        }
        self.calls = calls;
        end_all(expired, false)
    }

    /// Closes the session: every pending call ends as cancelled, the Calls
    /// being handled are forgotten, and nothing is answered any more.
    pub fn close(&mut self) -> (cancelled: Vec<Completion>)
        ensures
            final(self)@.wf(),
            final(self)@ == (SessionView {
                state: SessionState::Closed,
                pending: Seq::empty(),
                inbound: Seq::empty(),
                ..old(self)@
            }),
            completions_view(cancelled@) == all_ended(old(self)@.pending, OutcomeView::Cancelled),
    {
        proof {
            use_type_invariant(&*self);
        }
        let mut calls = CallTable::new();
        std::mem::swap(&mut self.calls, &mut calls);
        let cancelled = calls.cancel_all();
        assert(calls@ =~= Seq::empty());
        self.calls = calls;
        let inbound: Vec<InboundCall> = Vec::new();
        assert(inbound_view(inbound@) =~= Seq::empty());
        self.inbound = inbound;
        self.state = SessionState::Closed;
        end_all(cancelled, true)
    }
}

/// The CallError for a handler whose result does not fit the action.
fn handler_fault(message_id: String) -> (frame: OcppMessageType)
    ensures
        frame@ == error_frame(message_id@, OcppErrorCode::InternalError, handler_fault_text()),
{
    OcppCallError::new(
        message_id,
        OcppErrorCode::InternalError,
        "Handler result does not fit the action".to_owned(),
    ).into_frame()
}

/// Ends every call of a list in the same way: cancelled, or timed out.
fn end_all(calls: Vec<PendingCall>, cancelled: bool) -> (ended: Vec<Completion>)
    ensures
        completions_view(ended@) == all_ended(
            pending_view(calls@),
            if cancelled {
                OutcomeView::Cancelled
            } else {
                OutcomeView::Timeout
            },
        ),
{
    let mut ended: Vec<Completion> = Vec::new();
    let mut i: usize = 0;
    while i < calls.len()
        invariant
            i <= calls.len(),
            ended.len() == i,
            forall|k: int|
                0 <= k < i ==> (#[trigger] ended[k])@ == (CompletionView {
                    call: calls[k]@,
                    outcome: if cancelled {
                        OutcomeView::Cancelled
                    } else {
                        OutcomeView::Timeout
                    },
                }),
        decreases calls.len() - i,
    {
        let outcome = if cancelled {
            CallOutcome::Cancelled
        } else {
            CallOutcome::Timeout
        };
        ended.push(Completion { call: calls[i].clone(), outcome });
        i = i + 1;
    }
    assert(completions_view(ended@) =~= all_ended(
        pending_view(calls@),
        if cancelled {
            OutcomeView::Cancelled
        } else {
            OutcomeView::Timeout
        },
    ));
    ended
}

/// Recovers the message id of a Call from a document that may be no frame.
pub fn recover_call_id(value: &Json) -> (recovered: Option<String>)
    ensures
        recovered is Some == recoverable_call_id(value@) is Some,
        recovered matches Some(id) ==> recoverable_call_id(value@) == Some(id@),
{
    proof {
        lemma_type_id_numerals();
    }
    match value {
        Json::Array(items) => {
            if items.len() < 2 {
                return None;
            }
            assert(items_view(items@)[0] == items[0]@);
            assert(items_view(items@)[1] == items[1]@);
            let opens_call = match &items[0] {
                Json::Number(text) => str_eq(text.as_str(), "2"),
                _ => false,
            };
            if !opens_call {
                return None;
            }
            match &items[1] {
                Json::Str(text) => {
                    if text.as_str().is_empty() {
                        None
                    } else {
                        Some(text.clone())
                    }
                },
                _ => None,
            }
        },
        _ => None,
    }
}

} // verus!
