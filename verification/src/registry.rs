//! The connection registry: the live session of each connected station,
//! by which a frame or a server-initiated Call finds its station.

use vstd::prelude::*;
use crate::action::{request_rules, OcppActionEnum};
use crate::clock::{Timestamp, TimestampView};
use crate::correlation::{
    all_ended, completions_view, due, not_due, Completion, OutcomeView, PendingCall,
};
use crate::dispatch::{
    call_sent, complete_step, message_step, HandlerResult, SendError, SessionAction,
    SessionState, SessionView,
};
use crate::frame::OcppMessageType;
use crate::json::Json;
use crate::payload::conforms;
use crate::session::StationSession;
use crate::text::str_eq;

verus! {

/// Tells whether a station with the identifier `id` is connected.
pub open spec fn has_station(sessions: Seq<SessionView>, id: Seq<char>) -> bool {
    exists|i: int| 0 <= i < sessions.len() && (#[trigger] sessions[i]).station_id == id
}

/// The place of the session of the station with the identifier `id`.
pub open spec fn station_position(sessions: Seq<SessionView>, id: Seq<char>) -> int {
    choose|i: int| 0 <= i < sessions.len() && (#[trigger] sessions[i]).station_id == id
}

/// No two sessions belong to the same station.
pub open spec fn distinct_stations(sessions: Seq<SessionView>) -> bool {
    forall|i: int, j: int|
        0 <= i < j < sessions.len() ==> (#[trigger] sessions[i]).station_id != (
        #[trigger] sessions[j]).station_id
}

/// What always holds of the live sessions: every one is open, and no two
/// belong to the same station.
pub open spec fn valid_registry(sessions: Seq<SessionView>) -> bool {
    &&& forall|i: int| 0 <= i < sessions.len() ==> !((#[trigger] sessions[i]).state is Closed)
    &&& distinct_stations(sessions)
}

/// The sessions without that of the station with the identifier `id`.
pub open spec fn without_station(sessions: Seq<SessionView>, id: Seq<char>) -> Seq<SessionView> {
    if has_station(sessions, id) {
        sessions.remove(station_position(sessions, id))
    } else {
        sessions
    }
}

/// Tells whether two lists of sessions differ at most at the place `at`.
pub open spec fn only_changed(before: Seq<SessionView>, after: Seq<SessionView>, at: int) -> bool {
    &&& after.len() == before.len()
    &&& forall|k: int| 0 <= k < before.len() && k != at ==> #[trigger] after[k] == before[k]
}

/// The session of a station whose socket has just been opened.
pub open spec fn fresh_session(
    station_id: Seq<char>,
    heartbeat_interval: nat,
    now: TimestampView,
) -> SessionView {
    SessionView {
        station_id,
        state: SessionState::Unregistered,
        pending: Seq::empty(),
        next_serial: 1,
        inbound: Seq::empty(),
        last_activity: now.millis,
        heartbeat_interval,
    }
}

/// The station whose connection was refused because it has a live
/// session already.
#[derive(Clone, Debug, PartialEq, Eq)]
pub struct AlreadyConnected {
    pub station_id: String,
}

/// The live sessions, at most one for each station identifier.
#[derive(Debug)]
pub struct ConnectionRegistry {
    sessions: Vec<StationSession>,
}

impl View for ConnectionRegistry {
    type V = Seq<SessionView>;

    /// The live sessions, in the order their sockets were opened in.
    closed spec fn view(&self) -> Seq<SessionView> {
        Seq::new(self.sessions.len() as nat, |i: int| self.sessions[i]@)
    }
}

impl ConnectionRegistry {
    /// What always holds of a registry.
    #[verifier::type_invariant]
    closed spec fn inv(&self) -> bool {
        valid_registry(self@)
    }

    /// A registry without sessions.
    pub fn new() -> (registry: ConnectionRegistry)
        ensures
            valid_registry(registry@),
            registry@.len() == 0,
    {
        ConnectionRegistry { sessions: Vec::new() }
    }

    /// The number of live sessions.
    pub fn len(&self) -> (count: usize)
        ensures
            count == self@.len(),
    {
        self.sessions.len()
    }

    /// Finds the session of the station with the identifier `station_id`.
    fn index(&self, station_id: &str) -> (found: Option<usize>)
        ensures
            found is Some == has_station(self@, station_id@),
            found matches Some(i) ==> i < self.sessions.len() && i == station_position(
                self@,
                station_id@,
            ) && self@[i as int].station_id == station_id@,
    {
        proof {
            use_type_invariant(self);
        }
        let mut i: usize = 0;
        while i < self.sessions.len()
            invariant
                i <= self.sessions.len(),
                distinct_stations(self@),
                forall|k: int| 0 <= k < i ==> self@[k].station_id != station_id@,
            decreases self.sessions.len() - i,
        {
            if str_eq(self.sessions[i].station_id().as_str(), station_id) {
                assert(self@[i as int].station_id == station_id@);
                let ghost at = station_position(self@, station_id@);
                assert(at == i) by {
                    if at < i {
                        assert(self@[at].station_id != self@[i as int].station_id);
                    } else if i < at {
                        assert(self@[i as int].station_id != self@[at].station_id);
                    }
                }
                return Some(i);
            }
            i = i + 1;
        }
        None
    }

    /// The state of the session of a station, for monitoring; `None` for
    /// a station that is not connected.
    pub fn session_state(&self, station_id: &str) -> (state: Option<SessionState>)
        ensures
            state is Some == has_station(self@, station_id@),
            state matches Some(s) ==> s == self@[station_position(self@, station_id@)].state,
    {
        match self.index(station_id) {
            Some(i) => Some(self.sessions[i].state()),
            None => None,
        }
    }

    /// Tells whether a station has been silent for more than `limit_ms`
    /// milliseconds at `now`; `None` for a station that is not connected.
    pub fn is_idle(&self, station_id: &str, now: &Timestamp, limit_ms: u32) -> (idle: Option<bool>)
        ensures
            idle is Some == has_station(self@, station_id@),
            idle matches Some(silent) ==> silent == (now@.millis - self@[station_position(
                self@,
                station_id@,
            )].last_activity > limit_ms),
    {
        match self.index(station_id) {
            Some(i) => Some(self.sessions[i].is_idle(now, limit_ms)),
            None => None,
        }
    }

    /// Takes the session at the place `i` out of the registry.
    fn take(&mut self, i: usize) -> (session: StationSession)
        requires
            i < old(self)@.len(),
        ensures
            valid_registry(final(self)@),
            final(self)@ == old(self)@.remove(i as int),
            session@ == old(self)@[i as int],
            !(session@.state is Closed),
            !has_station(final(self)@, session@.station_id),
    {
        proof {
            use_type_invariant(&*self);
        }
        let ghost before = self@;
        // The sessions are taken out while the list changes: what always
        // holds of the registry holds of the empty registry in between.
        let mut sessions: Vec<StationSession> = Vec::new();
        std::mem::swap(&mut self.sessions, &mut sessions);
        let session = sessions.remove(i);
        let ghost rest = Seq::new(sessions@.len(), |k: int| sessions@[k]@);
        assert(rest =~= before.remove(i as int));
        assert forall|k: int| 0 <= k < rest.len() implies (#[trigger] rest[k]) == before[if k < i {
            k
        } else {
            k + 1
        }] by {}
        assert(distinct_stations(rest)) by {
            assert forall|a: int, b: int| 0 <= a < b < rest.len() implies (
            #[trigger] rest[a]).station_id != (#[trigger] rest[b]).station_id by {
                let x = if a < i {
                    a
                } else {
                    a + 1
                };
                let y = if b < i {
                    b
                } else {
                    b + 1
                };
                assert(before[x].station_id != before[y].station_id);
            }
        }
        assert forall|k: int| 0 <= k < rest.len() implies (#[trigger] rest[k]).station_id
            != before[i as int].station_id by {
            if k < i {
                assert(before[k].station_id != before[i as int].station_id);
            } else {
                assert(before[i as int].station_id != before[k + 1].station_id);
            }
        }
        self.sessions = sessions;
        assert(self@ =~= rest);
        session
    }

    /// Puts a session into the registry at the place `i`.
    fn put(&mut self, i: usize, session: StationSession)
        requires
            i <= old(self)@.len(),
            !(session@.state is Closed),
            !has_station(old(self)@, session@.station_id),
        ensures
            valid_registry(final(self)@),
            final(self)@ == old(self)@.insert(i as int, session@),
    {
        proof {
            use_type_invariant(&*self);
        }
        let ghost before = self@;
        let ghost placed = session@;
        let mut sessions: Vec<StationSession> = Vec::new();
        std::mem::swap(&mut self.sessions, &mut sessions);
        sessions.insert(i, session);
        let ghost all = Seq::new(sessions@.len(), |k: int| sessions@[k]@);
        assert(all =~= before.insert(i as int, placed));
        assert forall|k: int| 0 <= k < all.len() implies #[trigger] all[k] == (if k < i {
            before[k]
        } else if k == i {
            placed
        } else {
            before[k - 1]
        }) by {}
        assert(distinct_stations(all)) by {
            assert forall|a: int, b: int| 0 <= a < b < all.len() implies (
            #[trigger] all[a]).station_id != (#[trigger] all[b]).station_id by {
                if a != i && b != i {
                    let x = if a < i {
                        a
                    } else {
                        a - 1
                    };
                    let y = if b < i {
                        b
                    } else {
                        b - 1
                    };
                    assert(before[x].station_id != before[y].station_id);
                } else if a == i {
                    assert(before[b - 1].station_id != placed.station_id);
                } else {
                    assert(before[a].station_id != placed.station_id);
                }
            }
        }
        self.sessions = sessions;
        assert(self@ =~= all);
    }

    /// Registers the session of a station whose socket has just been
    /// opened at `now`. A station identifier has at most one live
    /// session: where the station is connected already, the new
    /// connection is refused and the registry stays as it was.
    pub fn connect(
        &mut self,
        station_id: String,
        heartbeat_interval: u32,
        now: &Timestamp,
    ) -> (connected: Result<(), AlreadyConnected>)
        ensures
            valid_registry(final(self)@),
            connected is Ok == !has_station(old(self)@, station_id@),
            connected is Ok ==> final(self)@ == old(self)@.push(
                fresh_session(station_id@, heartbeat_interval as nat, now@),
            ),
            connected matches Err(refused) ==> final(self)@ == old(self)@ && refused.station_id@
                == station_id@,
    {
        proof {
            use_type_invariant(&*self);
        }
        if self.index(station_id.as_str()).is_some() {
            return Err(AlreadyConnected { station_id });
        }
        let session = StationSession::new(station_id, heartbeat_interval, now);
        self.put(self.sessions.len(), session);
        assert(self@ =~= old(self)@.push(session@));
        Ok(())
    }

    /// Removes the session of a station whose socket has closed. The calls
    /// that were pending on it are handed over as cancelled; `None` for a
    /// station that is not connected.
    pub fn disconnect(&mut self, station_id: &str) -> (cancelled: Option<Vec<Completion>>)
        ensures
            valid_registry(final(self)@),
            final(self)@ == without_station(old(self)@, station_id@),
            !has_station(final(self)@, station_id@),
            cancelled is Some == has_station(old(self)@, station_id@),
            cancelled matches Some(ended) ==> completions_view(ended@) == all_ended(
                old(self)@[station_position(old(self)@, station_id@)].pending,
                OutcomeView::Cancelled,
            ),
    {
        proof {
            use_type_invariant(&*self);
        }
        match self.index(station_id) {
            Some(i) => {
                let mut session = self.take(i);
                Some(session.close())
            },
            None => None,
        }
    }

    /// Handles a text frame that has come from a station at `now`, on the
    /// session of that station. `None`, and nothing changes, for a
    /// station that is not connected.
    pub fn handle_ocpp_messages(&mut self, station_id: &str, message: &str, now: &Timestamp) -> (out:
        Option<SessionAction>)
        ensures
            valid_registry(final(self)@),
            out is Some == has_station(old(self)@, station_id@),
            out is None ==> final(self)@ == old(self)@,
            out matches Some(action) ==> only_changed(
                old(self)@,
                final(self)@,
                station_position(old(self)@, station_id@),
            ) && (final(self)@[station_position(old(self)@, station_id@)], action@)
                == message_step(
                old(self)@[station_position(old(self)@, station_id@)],
                message@,
                now@,
            ),
    {
        proof {
            use_type_invariant(&*self);
        }
        match self.index(station_id) {
            Some(i) => {
                let ghost before = self@;
                let mut session = self.take(i);
                let out = session.handle_ocpp_messages(message, now);
                self.put(i, session);
                assert(self@ =~= before.update(i as int, session@));
                Some(out)
            },
            None => None,
        }
    }

    /// Takes what a handler gives back for a Call of a station, on the
    /// session of that station, and gives the frame to send, if any.
    /// `None`, and nothing changes, for a station that is not connected.
    pub fn complete(
        &mut self,
        station_id: &str,
        message_id: &str,
        result: HandlerResult,
        now: &Timestamp,
    ) -> (out: Option<Option<OcppMessageType>>)
        ensures
            valid_registry(final(self)@),
            out is Some == has_station(old(self)@, station_id@),
            out is None ==> final(self)@ == old(self)@,
            out matches Some(reply) ==> only_changed(
                old(self)@,
                final(self)@,
                station_position(old(self)@, station_id@),
            ) && final(self)@[station_position(old(self)@, station_id@)] == complete_step(
                old(self)@[station_position(old(self)@, station_id@)],
                message_id@,
                result@,
                now@,
            ).0 && (match reply {
                Some(frame) => Some(frame@),
                None => None,
            }) == complete_step(
                old(self)@[station_position(old(self)@, station_id@)],
                message_id@,
                result@,
                now@,
            ).1,
    {
        proof {
            use_type_invariant(&*self);
        }
        match self.index(station_id) {
            Some(i) => {
                let ghost before = self@;
                let mut session = self.take(i);
                let reply = session.complete(message_id, result, now);
                self.put(i, session);
                assert(self@ =~= before.update(i as int, session@));
                Some(reply)
            },
            None => None,
        }
    }

    /// Sends a Call to a station at `now`, on the session of that station.
    /// `None`, and nothing changes, for a station that is not connected.
    pub fn send_call(
        &mut self,
        station_id: &str,
        action: OcppActionEnum,
        payload: Json,
        timeout_ms: u32,
        now: &Timestamp,
    ) -> (out: Option<Result<(PendingCall, OcppMessageType), SendError>>)
        ensures
            valid_registry(final(self)@),
            out is Some == has_station(old(self)@, station_id@),
            out is None ==> final(self)@ == old(self)@,
            out matches Some(sent) ==> only_changed(
                old(self)@,
                final(self)@,
                station_position(old(self)@, station_id@),
            ) && sent is Ok == (conforms(payload@, request_rules(action)) && old(
                self,
            )@[station_position(old(self)@, station_id@)].next_serial < u64::MAX),
            out matches Some(Ok((call, frame))) ==> call_sent(
                old(self)@[station_position(old(self)@, station_id@)],
                action,
                payload@,
                timeout_ms as int,
                now@,
                final(self)@[station_position(old(self)@, station_id@)],
                call@,
                frame@,
            ),
            out matches Some(Err(_)) ==> final(self)@ == old(self)@,
    {
        proof {
            use_type_invariant(&*self);
        }
        match self.index(station_id) {
            Some(i) => {
                let ghost before = self@;
                let mut session = self.take(i);
                let sent = session.send_call(action, payload, timeout_ms, now);
                self.put(i, session);
                assert(self@ =~= before.update(i as int, session@));
                Some(sent)
            },
            None => None,
        }
    }

    /// Expires the calls to a station whose deadline has come at `now`, on
    /// the session of that station: they end with a timeout, and the
    /// socket stays open. `None`, and nothing changes, for a station that
    /// is not connected.
    pub fn expire(&mut self, station_id: &str, now: &Timestamp) -> (out: Option<Vec<Completion>>)
        ensures
            valid_registry(final(self)@),
            out is Some == has_station(old(self)@, station_id@),
            out is None ==> final(self)@ == old(self)@,
            out matches Some(expired) ==> only_changed(
                old(self)@,
                final(self)@,
                station_position(old(self)@, station_id@),
            ) && final(self)@[station_position(old(self)@, station_id@)] == (SessionView {
                pending: not_due(
                    old(self)@[station_position(old(self)@, station_id@)].pending,
                    now@.millis,
                ),
                ..old(self)@[station_position(old(self)@, station_id@)]
            }) && completions_view(expired@) == all_ended(
                due(old(self)@[station_position(old(self)@, station_id@)].pending, now@.millis),
                OutcomeView::Timeout,
            ),
    {
        proof {
            use_type_invariant(&*self);
        }
        match self.index(station_id) {
            Some(i) => {
                let ghost before = self@;
                let mut session = self.take(i);
                let expired = session.expire(now);
                self.put(i, session);
                assert(self@ =~= before.update(i as int, session@));
                Some(expired)
            },
            None => None,
        }
    }
}

} // verus!
