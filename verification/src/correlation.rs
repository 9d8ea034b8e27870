//! The call correlation table: the Calls that the server has sent to one
//! station and that still wait for their answer.

use vstd::prelude::*;
use crate::action::OcppActionEnum;
use crate::json::{Json, JsonValue};
use crate::payload::{MismatchView, OcppPayload, PayloadView, ValidationError};
use crate::text::{decimal, decimal_string, lemma_decimal_injective, str_eq};

verus! {

/// What can go wrong at the protocol layer. None of these ends the process,
/// and only a transport error ends the session.
#[derive(Clone, Copy, Debug, PartialEq, Eq, Structural)]
pub enum ErrorKind {
    /// A text that is no frame.
    MalformedFrame,
    /// A Call whose action the registry does not have.
    UnknownAction,
    /// A payload that does not have the shape of its action.
    SchemaMismatch,
    /// A CallResult or CallError whose message id no pending call has.
    UnsolicitedResponse,
    /// A pending call that got no answer in time.
    Timeout,
    /// A pending call whose session closed before the answer came.
    Cancelled,
    /// A Call whose message id is that of a Call still being handled.
    DuplicateMessageId,
    /// A frame for a session that is closed.
    SessionClosed,
    /// A Call that could not be sent because every message id was used.
    MessageIdsExhausted,
    /// The socket failed.
    TransportError,
}

/// The time that a call may wait, added to the time it was sent at, and
/// held at the largest time where the sum would pass it.
pub open spec fn deadline_of(now: int, timeout_ms: int) -> int {
    if now + timeout_ms > i64::MAX {
        i64::MAX as int
    } else {
        now + timeout_ms
    }
}

/// Computes the time at which a call sent at `now` expires.
pub fn deadline_at(now: i64, timeout_ms: u32) -> (deadline: i64)
    ensures
        deadline == deadline_of(now as int, timeout_ms as int),
{
    let wait: i64 = timeout_ms as i64;
    if now > i64::MAX - wait {
        i64::MAX
    } else {
        now + wait
    }
}

/// A Call that the server has sent and that waits for its answer.
#[derive(Debug, PartialEq, Eq)]
pub struct PendingCall {
    /// The message id of the Call: the decimal numeral of `serial`.
    pub message_id: String,
    /// The number from which the message id was made.
    pub serial: u64,
    /// The action of the Call, by which its answer is validated.
    pub action: OcppActionEnum,
    /// When the Call was sent, in milliseconds.
    pub enqueued_at: i64,
    /// When the Call expires, in milliseconds.
    pub deadline: i64,
}

/// A pending call as a mathematical value.
pub struct PendingView {
    pub message_id: Seq<char>,
    pub serial: nat,
    pub action: OcppActionEnum,
    pub enqueued_at: int,
    pub deadline: int,
}

impl View for PendingCall {
    type V = PendingView;

    open spec fn view(&self) -> PendingView {
        PendingView {
            message_id: self.message_id@,
            serial: self.serial as nat,
            action: self.action,
            enqueued_at: self.enqueued_at as int,
            deadline: self.deadline as int,
        }
    }
}

impl Clone for PendingCall {
    /// A copy that is equal to the call.
    fn clone(&self) -> (copy: PendingCall)
        ensures
            copy == *self,
    {
        PendingCall {
            message_id: self.message_id.clone(),
            serial: self.serial,
            action: self.action,
            enqueued_at: self.enqueued_at,
            deadline: self.deadline,
        }
    }
}

/// The view of a list of pending calls.
pub open spec fn pending_view(calls: Seq<PendingCall>) -> Seq<PendingView> {
    Seq::new(calls.len(), |i: int| calls[i]@)
}

/// How a pending call came to its end.
#[derive(Clone, Debug, PartialEq)]
pub enum CallOutcome {
    /// The station answered with a CallResult whose payload has the shape
    /// of the action's response.
    Result(OcppPayload),
    /// The station answered with a CallError.
    Error { error_code: String, error_description: String, error_details: Json },
    /// The station answered with a CallResult whose payload does not have
    /// the shape of the action's response.
    Invalid(ValidationError),
    /// No answer came in time.
    Timeout,
    /// The session closed first.
    Cancelled,
}

/// The kind of error with which a pending call ended, if it ended with
/// one of the protocol layer's own: a timeout, a cancellation, or an
/// answer whose payload does not have the shape of the action. An answer
/// of the station, be it a result or an error, is none.
pub open spec fn outcome_error_kind(outcome: OutcomeView) -> Option<ErrorKind> {
    match outcome {
        OutcomeView::Result(_) => None,
        OutcomeView::Error { .. } => None,
        OutcomeView::Invalid(_) => Some(ErrorKind::SchemaMismatch),
        OutcomeView::Timeout => Some(ErrorKind::Timeout),
        OutcomeView::Cancelled => Some(ErrorKind::Cancelled),
    }
}

impl CallOutcome {
    /// The kind of error with which the call ended, if any.
    pub fn error_kind(&self) -> (kind: Option<ErrorKind>)
        ensures
            kind == outcome_error_kind(self@),
    {
        match self {
            CallOutcome::Result(_) => None,
            CallOutcome::Error { .. } => None,
            CallOutcome::Invalid(_) => Some(ErrorKind::SchemaMismatch),
            CallOutcome::Timeout => Some(ErrorKind::Timeout),
            CallOutcome::Cancelled => Some(ErrorKind::Cancelled),
        }
    }
}

/// A pending call that has come to its end, and how: what is put into the
/// call's completion slot.
#[derive(Clone, Debug, PartialEq)]
pub struct Completion {
    pub call: PendingCall,
    pub outcome: CallOutcome,
}

/// How a pending call came to its end, as a mathematical value.
pub enum OutcomeView {
    Result(PayloadView),
    Error { error_code: Seq<char>, error_description: Seq<char>, error_details: JsonValue },
    Invalid(MismatchView),
    Timeout,
    Cancelled,
}

impl View for CallOutcome {
    type V = OutcomeView;

    open spec fn view(&self) -> OutcomeView {
        match self {
            CallOutcome::Result(payload) => OutcomeView::Result(payload@),
            CallOutcome::Error { error_code, error_description, error_details } => OutcomeView::Error {
                error_code: error_code@,
                error_description: error_description@,
                error_details: error_details@,
            },
            CallOutcome::Invalid(error) => OutcomeView::Invalid(error@),
            CallOutcome::Timeout => OutcomeView::Timeout,
            CallOutcome::Cancelled => OutcomeView::Cancelled,
        }
    }
}

/// A pending call that has come to its end, as a mathematical value.
pub struct CompletionView {
    pub call: PendingView,
    pub outcome: OutcomeView,
}

impl View for Completion {
    type V = CompletionView;

    open spec fn view(&self) -> CompletionView {
        CompletionView { call: self.call@, outcome: self.outcome@ }
    }
}

/// The view of a list of completions.
pub open spec fn completions_view(completions: Seq<Completion>) -> Seq<CompletionView> {
    Seq::new(completions.len(), |i: int| completions[i]@)
}

/// The completions of a list of calls that all came to the same end.
pub open spec fn all_ended(calls: Seq<PendingView>, outcome: OutcomeView) -> Seq<CompletionView> {
    Seq::new(calls.len(), |i: int| CompletionView { call: calls[i], outcome })
}

/// Tells whether some pending call has the message id `id`.
pub open spec fn has_id(pending: Seq<PendingView>, id: Seq<char>) -> bool {
    exists|i: int| 0 <= i < pending.len() && (#[trigger] pending[i]).message_id == id
}

/// The place of a pending call with the message id `id`.
pub open spec fn position_of(pending: Seq<PendingView>, id: Seq<char>) -> int {
    choose|i: int| 0 <= i < pending.len() && (#[trigger] pending[i]).message_id == id
}

/// No two pending calls have the same message id.
pub open spec fn distinct_ids(pending: Seq<PendingView>) -> bool {
    forall|i: int, j: int|
        0 <= i < j < pending.len() ==> (#[trigger] pending[i]).message_id != (
        #[trigger] pending[j]).message_id
}

/// The pending call that an answer with the message id `id` resolves.
pub open spec fn resolved_call(pending: Seq<PendingView>, id: Seq<char>) -> Option<PendingView> {
    if has_id(pending, id) {
        Some(pending[position_of(pending, id)])
    } else {
        None
    }
}

/// The table after an answer with the message id `id`: without the call
/// that it resolves, and unchanged where it resolves none.
pub open spec fn after_resolve(pending: Seq<PendingView>, id: Seq<char>) -> Seq<PendingView> {
    if has_id(pending, id) {
        pending.remove(position_of(pending, id))
    } else {
        pending
    }
}

/// The pending calls that have expired at `now`, in the order they were
/// sent in.
pub open spec fn due(pending: Seq<PendingView>, now: int) -> Seq<PendingView>
    decreases pending.len(),
{
    if pending.len() == 0 {
        seq![]
    } else if pending.last().deadline <= now {
        due(pending.drop_last(), now).push(pending.last())
    } else {
        due(pending.drop_last(), now)
    }
}

/// The pending calls that have not expired at `now`, in the order they
/// were sent in.
pub open spec fn not_due(pending: Seq<PendingView>, now: int) -> Seq<PendingView>
    decreases pending.len(),
{
    if pending.len() == 0 {
        seq![]
    } else if pending.last().deadline <= now {
        not_due(pending.drop_last(), now)
    } else {
        not_due(pending.drop_last(), now).push(pending.last())
    }
}

/// Every call among those that expired, and every call among those that
/// did not, was pending.
pub proof fn lemma_due_members(pending: Seq<PendingView>, now: int)
    ensures
        forall|k: int|
            0 <= k < due(pending, now).len() ==> (#[trigger] due(pending, now)[k]).deadline <= now
                && pending.contains(due(pending, now)[k]),
        forall|k: int|
            0 <= k < not_due(pending, now).len() ==> (#[trigger] not_due(pending, now)[k]).deadline
                > now && pending.contains(not_due(pending, now)[k]),
        forall|i: int|
            0 <= i < pending.len() ==> if (#[trigger] pending[i]).deadline <= now {
                due(pending, now).contains(pending[i])
            } else {
                not_due(pending, now).contains(pending[i])
            },
    decreases pending.len(),
{
    if pending.len() > 0 {
        let rest = pending.drop_last();
        let last = pending.last();
        lemma_due_members(rest, now);
        assert forall|k: int| 0 <= k < due(pending, now).len() implies (#[trigger] due(
            pending,
            now,
        )[k]).deadline <= now && pending.contains(due(pending, now)[k]) by {
            if k < due(rest, now).len() {
                let p = due(rest, now)[k];
                assert(rest.contains(p));
                let i = choose|i: int| 0 <= i < rest.len() && rest[i] == p;
                assert(pending[i] == p);
            } else {
                assert(pending[pending.len() - 1] == last);
            }
        }
        assert forall|k: int| 0 <= k < not_due(pending, now).len() implies (#[trigger] not_due(
            pending,
            now,
        )[k]).deadline > now && pending.contains(not_due(pending, now)[k]) by {
            if k < not_due(rest, now).len() {
                let p = not_due(rest, now)[k];
                assert(rest.contains(p));
                let i = choose|i: int| 0 <= i < rest.len() && rest[i] == p;
                assert(pending[i] == p);
            } else {
                assert(pending[pending.len() - 1] == last);
            }
        }
        assert forall|i: int| 0 <= i < pending.len() implies if (#[trigger] pending[i]).deadline
            <= now {
            due(pending, now).contains(pending[i])
        } else {
            not_due(pending, now).contains(pending[i])
        } by {
            if i < rest.len() {
                assert(rest[i] == pending[i]);
                if pending[i].deadline <= now {
                    let k = choose|k: int|
                        0 <= k < due(rest, now).len() && due(rest, now)[k] == pending[i];
                    assert(due(pending, now)[k] == pending[i]);
                } else {
                    let k = choose|k: int|
                        0 <= k < not_due(rest, now).len() && not_due(rest, now)[k] == pending[i];
                    assert(not_due(pending, now)[k] == pending[i]);
                }
            } else {
                if last.deadline <= now {
                    assert(due(pending, now).last() == last);
                } else {
                    assert(not_due(pending, now).last() == last);
                }
            }
        }
    }
}

/// An answer whose message id no pending call has resolves nothing and
/// leaves the table as it was.
pub proof fn lemma_unsolicited_answer_changes_nothing(pending: Seq<PendingView>, id: Seq<char>)
    requires
        !has_id(pending, id),
    ensures
        resolved_call(pending, id) is None,
        after_resolve(pending, id) == pending,
{
}

/// A message id is resolved once: after the answer that resolved it, a
/// second answer with the same message id resolves nothing and changes
/// nothing.
pub proof fn lemma_second_answer_is_ignored(pending: Seq<PendingView>, id: Seq<char>)
    requires
        distinct_ids(pending),
    ensures
        !has_id(after_resolve(pending, id), id),
        resolved_call(after_resolve(pending, id), id) is None,
        after_resolve(after_resolve(pending, id), id) == after_resolve(pending, id),
{
    if has_id(pending, id) {
        let at = position_of(pending, id);
        let rest = pending.remove(at);
        assert forall|k: int| 0 <= k < rest.len() implies (#[trigger] rest[k]).message_id != id by {
            if k < at {
                assert(rest[k] == pending[k]);
            } else {
                assert(rest[k] == pending[k + 1]);
            }
        }
    }
}

/// A call that has timed out is gone from the table: an answer that comes
/// late for it resolves nothing and changes nothing, so the call has come
/// to its end once, by its timeout.
pub proof fn lemma_late_answer_after_timeout_is_ignored(
    pending: Seq<PendingView>,
    now: int,
    k: int,
)
    requires
        distinct_ids(pending),
        0 <= k < due(pending, now).len(),
    ensures
        !has_id(not_due(pending, now), due(pending, now)[k].message_id),
        resolved_call(not_due(pending, now), due(pending, now)[k].message_id) is None,
        after_resolve(not_due(pending, now), due(pending, now)[k].message_id) == not_due(
            pending,
            now,
        ),
{
    lemma_due_members(pending, now);
    let expired = due(pending, now)[k];
    let kept = not_due(pending, now);
    assert(pending.contains(expired));
    let i = choose|i: int| 0 <= i < pending.len() && pending[i] == expired;
    assert forall|m: int| 0 <= m < kept.len() implies (#[trigger] kept[m]).message_id
        != expired.message_id by {
        assert(pending.contains(kept[m]));
        let j = choose|j: int| 0 <= j < pending.len() && pending[j] == kept[m];
        assert(kept[m].deadline > now);
        assert(i != j);
        if i < j {
            assert(pending[i].message_id != pending[j].message_id);
        } else {
            assert(pending[j].message_id != pending[i].message_id);
        }
    }
}

/// A call ends by its timeout once: a call that has expired is not among
/// those that expire later.
pub proof fn lemma_timeout_ends_a_call_once(
    pending: Seq<PendingView>,
    now: int,
    later: int,
    k: int,
    m: int,
)
    requires
        distinct_ids(pending),
        0 <= k < due(pending, now).len(),
        0 <= m < due(not_due(pending, now), later).len(),
    ensures
        due(not_due(pending, now), later)[m].message_id != due(pending, now)[k].message_id,
{
    lemma_late_answer_after_timeout_is_ignored(pending, now, k);
    lemma_due_members(not_due(pending, now), later);
    let kept = not_due(pending, now);
    let again = due(kept, later)[m];
    assert(kept.contains(again));
    let at = choose|at: int| 0 <= at < kept.len() && kept[at] == again;
    assert(kept[at].message_id == again.message_id);
}

/// Among calls with distinct message ids, those that have not expired have
/// distinct message ids too.
pub proof fn lemma_not_due_distinct(pending: Seq<PendingView>, now: int)
    requires
        distinct_ids(pending),
    ensures
        distinct_ids(not_due(pending, now)),
    decreases pending.len(),
{
    if pending.len() > 0 {
        let rest = pending.drop_last();
        let last = pending.last();
        assert(distinct_ids(rest)) by {
            assert forall|i: int, j: int| 0 <= i < j < rest.len() implies (#[trigger] rest[i]).message_id
                != (#[trigger] rest[j]).message_id by {
                assert(rest[i] == pending[i]);
                assert(rest[j] == pending[j]);
            }
        }
        lemma_not_due_distinct(rest, now);
        lemma_due_members(rest, now);
        let kept = not_due(pending, now);
        let before = not_due(rest, now);
        assert forall|i: int, j: int| 0 <= i < j < kept.len() implies (#[trigger] kept[i]).message_id
            != (#[trigger] kept[j]).message_id by {
            if j < before.len() {
                assert(kept[i] == before[i]);
                assert(kept[j] == before[j]);
            } else {
                assert(kept[j] == last);
                assert(kept[i] == before[i]);
                assert(rest.contains(before[i]));
                let m = choose|m: int| 0 <= m < rest.len() && rest[m] == before[i];
                assert(pending[m] == before[i]);
                assert(pending[pending.len() - 1] == last);
            }
        }
    }
}

/// Taking the call that an answer resolves out of a table leaves the
/// message ids of the others distinct, and every call that stays was
/// pending before.
pub proof fn lemma_after_resolve(pending: Seq<PendingView>, id: Seq<char>)
    requires
        distinct_ids(pending),
    ensures
        distinct_ids(after_resolve(pending, id)),
        forall|k: int|
            0 <= k < after_resolve(pending, id).len() ==> pending.contains(
                #[trigger] after_resolve(pending, id)[k],
            ),
{
    if has_id(pending, id) {
        let at = position_of(pending, id);
        let rest = pending.remove(at);
        assert forall|k: int| 0 <= k < rest.len() implies #[trigger] rest[k] == pending[if k < at {
            k
        } else {
            k + 1
        }] by {}
        assert forall|i: int, j: int| 0 <= i < j < rest.len() implies (#[trigger] rest[i]).message_id
            != (#[trigger] rest[j]).message_id by {
            let x = if i < at {
                i
            } else {
                i + 1
            };
            let y = if j < at {
                j
            } else {
                j + 1
            };
            assert(pending[x].message_id != pending[y].message_id);
        }
    }
}

/// Among calls with distinct message ids, a call found by its message id
/// is the one that an answer resolves.
proof fn lemma_position(pending: Seq<PendingView>, i: int, id: Seq<char>)
    requires
        distinct_ids(pending),
        0 <= i < pending.len(),
        pending[i].message_id == id,
    ensures
        has_id(pending, id),
        position_of(pending, id) == i,
{
    let at = position_of(pending, id);
    if at < i {
        assert(pending[at].message_id != pending[i].message_id);
    } else if i < at {
        assert(pending[i].message_id != pending[at].message_id);
    }
}

/// What always holds of a table of pending calls: message ids are
/// distinct, and each is the numeral of a serial number below the next.
pub open spec fn valid_table(pending: Seq<PendingView>, next_serial: nat) -> bool {
    &&& distinct_ids(pending)
    &&& forall|i: int|
        0 <= i < pending.len() ==> (#[trigger] pending[i]).message_id == decimal(
            pending[i].serial,
        ) && pending[i].serial < next_serial
}

/// The calls that wait for their answer on one connection. Each has a
/// message id that no other pending call of the table has.
#[derive(Debug)]
pub struct CallTable {
    pending: Vec<PendingCall>,
    next_serial: u64,
}

impl View for CallTable {
    type V = Seq<PendingView>;

    /// The pending calls, in the order they were sent in.
    closed spec fn view(&self) -> Seq<PendingView> {
        pending_view(self.pending@)
    }
}

impl CallTable {
    /// The number from which the next message id is made.
    pub closed spec fn next_serial(&self) -> nat {
        self.next_serial as nat
    }

    /// What always holds of a table.
    #[verifier::type_invariant]
    closed spec fn inv(&self) -> bool {
        valid_table(self@, self.next_serial())
    }

    /// The pending call that a Call sent at `now` adds to the table.
    pub open spec fn next_call(&self, action: OcppActionEnum, now: int, timeout_ms: int) -> PendingView {
        PendingView {
            message_id: decimal(self.next_serial()),
            serial: self.next_serial(),
            action,
            enqueued_at: now,
            deadline: deadline_of(now, timeout_ms),
        }
    }

    /// An empty table.
    pub fn new() -> (table: CallTable)
        ensures
            valid_table(table@, table.next_serial()),
            table@.len() == 0,
            table.next_serial() == 1,
    {
        CallTable { pending: Vec::new(), next_serial: 1 }
    }

    /// An empty table whose first message id is made from `first`: for a
    /// connection that goes on where an earlier one left off.
    pub fn starting_at(first: u64) -> (table: CallTable)
        ensures
            valid_table(table@, table.next_serial()),
            table@.len() == 0,
            table.next_serial() == first,
    {
        CallTable { pending: Vec::new(), next_serial: first }
    }

    /// The number of calls that wait for their answer.
    pub fn len(&self) -> (count: usize)
        ensures
            count == self@.len(),
    {
        self.pending.len()
    }

    /// Tells whether a call with the message id `message_id` waits for its
    /// answer.
    pub fn is_pending(&self, message_id: &str) -> (pending: bool)
        ensures
            pending == has_id(self@, message_id@),
    {
        self.position(message_id).is_some()
    }

    /// The action of the pending call with the message id `message_id`:
    /// the action by which its answer is to be validated.
    pub fn action_of(&self, message_id: &str) -> (action: Option<OcppActionEnum>)
        ensures
            action is Some == has_id(self@, message_id@),
            action matches Some(a) ==> resolved_call(self@, message_id@) matches Some(call)
                && call.action == a,
    {
        match self.position(message_id) {
            Some(i) => {
                proof {
                    use_type_invariant(self);
                    lemma_position(self@, i as int, message_id@);
                }
                Some(self.pending[i].action)
            },
            None => None,
        }
    }

    /// Finds the pending call with the message id `message_id`.
    fn position(&self, message_id: &str) -> (found: Option<usize>)
        ensures
            found is Some == has_id(self@, message_id@),
            found matches Some(i) ==> i < self.pending.len() && self@[i as int].message_id
                == message_id@,
    {
        let mut i: usize = 0;
        while i < self.pending.len()
            invariant
                i <= self.pending.len(),
                forall|k: int| 0 <= k < i ==> self.pending[k].message_id@ != message_id@,
            decreases self.pending.len() - i,
        {
            if str_eq(self.pending[i].message_id.as_str(), message_id) {
                assert(self@[i as int].message_id == message_id@);
                return Some(i);
            }
            i = i + 1;
        }
        assert forall|k: int| 0 <= k < self@.len() implies (#[trigger] self@[k]).message_id
            != message_id@ by {
            assert(self.pending[k].message_id@ != message_id@);
        }
        None
    }

    /// Records a Call that is being sent at `now` and may wait
    /// `timeout_ms` milliseconds: gives it a message id that no pending
    /// call has and adds it at the end of the table. Fails, and changes
    /// nothing, only where every serial number has been used.
    pub fn issue(&mut self, action: OcppActionEnum, now: i64, timeout_ms: u32) -> (issued: Result<
        PendingCall,
        ErrorKind,
    >)
        ensures
            valid_table(final(self)@, final(self).next_serial()),
            issued is Ok == (old(self).next_serial() < u64::MAX),
            issued matches Ok(call) ==> call@ == old(self).next_call(
                action,
                now as int,
                timeout_ms as int,
            ) && !has_id(old(self)@, call@.message_id) && final(self)@ == old(self)@.push(call@)
                && final(self).next_serial() == old(self).next_serial() + 1,
            issued matches Err(error) ==> error == ErrorKind::MessageIdsExhausted && final(self)@
                == old(self)@ && final(self).next_serial() == old(self).next_serial(),
    {
        proof {
            use_type_invariant(&*self);
        }
        if self.next_serial == u64::MAX {
            return Err(ErrorKind::MessageIdsExhausted);
        }
        let serial = self.next_serial;
        let call = PendingCall {
            message_id: decimal_string(serial),
            serial,
            action,
            enqueued_at: now,
            deadline: deadline_at(now, timeout_ms),
        };
        let issued = call.clone();
        let ghost before = self@;
        assert forall|i: int| 0 <= i < before.len() implies (#[trigger] before[i]).message_id
            != call@.message_id by {
            if before[i].message_id == call@.message_id {
                lemma_decimal_injective(before[i].serial, serial as nat);
            }
        }
        // The calls are taken out while the list changes: what always holds
        // of the table holds of the empty table in between.
        let mut pending: Vec<PendingCall> = Vec::new();
        std::mem::swap(&mut self.pending, &mut pending);
        self.next_serial = serial + 1;
        pending.push(call);
        assert(pending_view(pending@) =~= before.push(issued@));
        self.pending = pending;
        Ok(issued)
    }

    /// Resolves the pending call with the message id `message_id`: takes
    /// it out of the table and hands it over. Where no pending call has
    /// that message id, nothing is resolved and the table stays as it was.
    pub fn resolve(&mut self, message_id: &str) -> (resolved: Option<PendingCall>)
        ensures
            valid_table(final(self)@, final(self).next_serial()),
            final(self).next_serial() == old(self).next_serial(),
            final(self)@ == after_resolve(old(self)@, message_id@),
            resolved is Some == has_id(old(self)@, message_id@),
            resolved matches Some(call) ==> resolved_call(old(self)@, message_id@) == Some(call@),
    {
        proof {
            use_type_invariant(&*self);
        }
        match self.position(message_id) {
            Some(i) => {
                let ghost before = self@;
                proof {
                    lemma_position(before, i as int, message_id@);
                    lemma_after_resolve(before, message_id@);
                }
                let mut pending: Vec<PendingCall> = Vec::new();
                std::mem::swap(&mut self.pending, &mut pending);
                let call = pending.remove(i);
                assert(pending_view(pending@) =~= before.remove(i as int));
                self.pending = pending;
                Some(call)
            },
            None => None,
        }
    }

    /// Expires the pending calls whose deadline has come at `now`: takes
    /// them out of the table and hands them over, in the order they were
    /// sent in. The others stay, in their order.
    pub fn expire(&mut self, now: i64) -> (expired: Vec<PendingCall>)
        ensures
            valid_table(final(self)@, final(self).next_serial()),
            final(self).next_serial() == old(self).next_serial(),
            pending_view(expired@) == due(old(self)@, now as int),
            final(self)@ == not_due(old(self)@, now as int),
    {
        proof {
            use_type_invariant(&*self);
        }
        let ghost before = self@;
        let mut kept: Vec<PendingCall> = Vec::new();
        let mut expired: Vec<PendingCall> = Vec::new();
        let mut i: usize = 0;
        while i < self.pending.len()
            invariant
                i <= self.pending.len(),
                before == self@,
                pending_view(expired@) == due(before.subrange(0, i as int), now as int),
                pending_view(kept@) == not_due(before.subrange(0, i as int), now as int),
            decreases self.pending.len() - i,
        {
            let ghost upto = before.subrange(0, i + 1);
            assert(upto.drop_last() =~= before.subrange(0, i as int));
            assert(upto.last() == self.pending[i as int]@);
            let call = self.pending[i].clone();
            if call.deadline <= now {
                expired.push(call);
                assert(pending_view(expired@) =~= due(upto, now as int));
            } else {
                kept.push(call);
                assert(pending_view(kept@) =~= not_due(upto, now as int));
            }
            i = i + 1;
        }
        assert(before.subrange(0, i as int) =~= before);
        proof {
            lemma_not_due_distinct(before, now as int);
            lemma_due_members(before, now as int);
        }
        assert forall|k: int| 0 <= k < pending_view(kept@).len() implies (#[trigger] pending_view(
            kept@,
        )[k]).message_id == decimal(pending_view(kept@)[k].serial) && pending_view(
            kept@,
        )[k].serial < self.next_serial() by {
            assert(before.contains(pending_view(kept@)[k]));
        }
        self.pending = kept;
        expired
    }

    /// Cancels every pending call: empties the table and hands the calls
    /// over, in the order they were sent in.
    pub fn cancel_all(&mut self) -> (cancelled: Vec<PendingCall>)
        ensures
            valid_table(final(self)@, final(self).next_serial()),
            final(self).next_serial() == old(self).next_serial(),
            pending_view(cancelled@) == old(self)@,
            final(self)@.len() == 0,
    {
        let mut cancelled: Vec<PendingCall> = Vec::new();
        std::mem::swap(&mut self.pending, &mut cancelled);
        cancelled
    }
}

} // verus!
