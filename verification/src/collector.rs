//! Collector handlers: a single-call datapoint update and the streaming
//! ingestion session. Both extract the authorization context once, before any
//! store interaction, and translate per-item store failures to wire error
//! codes keyed by id.

use vstd::prelude::*;

use crate::store::Store;
use crate::types::Datapoint;
use crate::types::EntryUpdateRecord;
use crate::types::FailureKind;
use crate::types::Permissions;
use crate::types::RpcStatus;
use crate::types::is_unauthenticated;
use crate::types::unauthenticated_status;

verus! {

/// The partial record a streamed datapoint becomes: only the datapoint field
/// is populated, marking a value-only update.
pub open spec fn value_only_record(d: Datapoint) -> EntryUpdateRecord {
    EntryUpdateRecord { path: None, datapoint: Some(d), actuator_target: None, description: None }
}

/// The update batch a datapoint batch translates to, id by id, in order.
pub open spec fn spec_entry_updates(b: Seq<(i32, Datapoint)>) -> Seq<(i32, EntryUpdateRecord)> {
    b.map_values(|p: (i32, Datapoint)| (p.0, value_only_record(p.1)))
}

/// Translates a batch of datapoints into value-only update records, keeping
/// ids and order.
pub fn make_entry_updates(datapoints: Vec<(i32, Datapoint)>) -> (r: Vec<(i32, EntryUpdateRecord)>)
    ensures
        r@ == spec_entry_updates(datapoints@),
{
    let ghost all = datapoints@;
    let mut rest = datapoints;
    let mut r: Vec<(i32, EntryUpdateRecord)> = Vec::new();
    while rest.len() > 0
        invariant
            rest@.len() <= all.len(),
            r@.len() + rest@.len() == all.len(),
            rest@ =~= all.skip(r@.len() as int),
            forall|i: int|
                0 <= i < r@.len() ==> r@[i] == (all[i].0, value_only_record(all[i].1)),
        decreases rest@.len(),
    {
        let p = rest.remove(0);
        proof {
            assert(p == all[r@.len() as int]);
            assert(rest@ =~= all.skip(r@.len() as int + 1));
        }
        r.push(
            (
                p.0,
                EntryUpdateRecord {
                    path: None,
                    datapoint: Some(p.1),
                    actuator_target: None,
                    description: None,
                },
            ),
        );
    }
    proof {
        assert(r@ =~= spec_entry_updates(all));
    }
    r
}

/// The wire error code a per-item failure is reported as.
pub open spec fn spec_failure_code(k: FailureKind) -> i32 {
    match k {
        FailureKind::UnknownDatapoint => 0,
        FailureKind::InvalidType => 1,
        FailureKind::AccessDenied => 2,
        FailureKind::InternalError => 3,
        FailureKind::OutOfBounds => 4,
    }
}

/// Translates one per-item failure to its wire error code.
pub fn failure_code(k: FailureKind) -> (r: i32)
    ensures
        r == spec_failure_code(k),
{
    match k {
        FailureKind::UnknownDatapoint => 0,
        FailureKind::InvalidType => 1,
        FailureKind::AccessDenied => 2,
        FailureKind::InternalError => 3,
        FailureKind::OutOfBounds => 4,
    }
}

/// The failure mapping as it goes on the wire: each failing id with its
/// failure's code, in the store's order.
pub open spec fn spec_translate_failures(f: Seq<(i32, FailureKind)>) -> Seq<(i32, i32)> {
    f.map_values(|p: (i32, FailureKind)| (p.0, spec_failure_code(p.1)))
}

/// Translates the store's failure mapping to wire error codes keyed by id.
pub fn translate_failures(failures: &Vec<(i32, FailureKind)>) -> (r: Vec<(i32, i32)>)
    ensures
        r@ == spec_translate_failures(failures@),
{
    let n: usize = failures.len();
    let mut r: Vec<(i32, i32)> = Vec::new();
    let mut i: usize = 0;
    while i < n
        invariant
            0 <= i <= n,
            n == failures@.len(),
            r@.len() == i,
            forall|j: int|
                0 <= j < i ==> r@[j] == (failures@[j].0, spec_failure_code(failures@[j].1)),
        decreases n - i,
    {
        let (id, kind) = failures[i];
        r.push((id, failure_code(kind)));
        i = i + 1;
    }
    proof {
        assert(r@ =~= spec_translate_failures(failures@));
    }
    r
}

/// Reply of the single-call update: the failing ids with their wire error
/// codes; ids absent from it were applied.
#[derive(Debug)]
pub struct UpdateDatapointsReply {
    pub errors: Vec<(i32, i32)>,
}

/// One message on the streaming session's reply stream: the failing ids of
/// one inbound batch with their wire error codes.
#[derive(Debug)]
pub struct StreamReply {
    pub errors: Vec<(i32, i32)>,
}

/// Applies one batch of datapoints through the store under the caller's
/// authorization. Without a `Permissions` context the call is rejected as
/// unauthenticated before any store interaction; otherwise the reply carries
/// the store's failure mapping translated to wire codes — empty on full
/// success.
pub fn update_datapoints<S: Store>(
    store: &mut S,
    permissions: Option<&Permissions>,
    datapoints: Vec<(i32, Datapoint)>,
) -> (r: Result<UpdateDatapointsReply, RpcStatus>)
    ensures
        permissions is None ==> (r matches Err(s) && is_unauthenticated(s)) && *final(store)
            == *old(store),
        permissions is Some ==> (r matches Ok(rep) && (exists|f: Seq<(i32, FailureKind)>|
            rep.errors@ == #[trigger] spec_translate_failures(f))),
{
    let permissions = match permissions {
        Some(p) => p,
        None => { return Err(unauthenticated_status()); },
    };
    let updates = make_entry_updates(datapoints);
    match store.update_entries(permissions, updates) {
        Ok(()) => {
            let rep = UpdateDatapointsReply { errors: Vec::new() };
            proof {
                assert(rep.errors@ =~= spec_translate_failures(Seq::<(i32, FailureKind)>::empty()));
            }
            Ok(rep)
        },
        Err(failures) => {
            let rep = UpdateDatapointsReply { errors: translate_failures(&failures) };
            Ok(rep)
        },
    }
}

/// State of one streaming ingestion session: authorization happens once, at
/// session start; an authorized session is active; a terminated one processes
/// nothing further and its reply stream is closed.
#[derive(Clone, Copy, Debug, PartialEq, Eq, Structural)]
pub enum SessionState {
    Authorizing,
    Active,
    Terminating,
}

/// What an active session can observe next: an inbound batch, a clean end of
/// the inbound stream, a transport read error, or the process-wide shutdown
/// signal.
#[derive(Debug)]
pub enum SessionEvent {
    Batch(Vec<(i32, Datapoint)>),
    EndOfStream,
    TransportError,
    Shutdown,
}

/// What the session does in response: apply a translated batch through the
/// store, or stop — closing the producing end of the reply channel, which
/// completes the outward reply stream with no further items.
#[derive(Debug)]
pub enum SessionAction {
    Apply(Vec<(i32, EntryUpdateRecord)>),
    Stop,
}

/// Moves the session out of its initial `Authorizing` state. A session
/// without a `Permissions` context fails as a whole, immediately and before
/// any store interaction, and never becomes active; one authorization covers
/// every message of an authorized session.
pub fn authorize_session(permissions: Option<&Permissions>) -> (r: Result<SessionState, RpcStatus>)
    ensures
        permissions is None ==> (r matches Err(s) && is_unauthenticated(s)),
        permissions is Some ==> (r matches Ok(st) && st == SessionState::Active),
{
    match permissions {
        Some(_) => Ok(SessionState::Active),
        None => Err(unauthenticated_status()),
    }
}

/// One decision of the active session: an inbound batch is translated and
/// applied and the session stays active; a clean end of stream, a transport
/// read error, and the shutdown signal each terminate it, whichever of the
/// racing events became ready first.
pub fn session_step(event: SessionEvent) -> (r: (SessionState, SessionAction))
    ensures
        event matches SessionEvent::Batch(b) ==> r.0 == SessionState::Active && (
        r.1 matches SessionAction::Apply(u) && u@ == spec_entry_updates(b@)),
        !(event matches SessionEvent::Batch(_)) ==> r.0 == SessionState::Terminating && r.1
            is Stop,
{
    match event {
        SessionEvent::Batch(b) => (SessionState::Active, SessionAction::Apply(make_entry_updates(b))),
        SessionEvent::EndOfStream => (SessionState::Terminating, SessionAction::Stop),
        SessionEvent::TransportError => (SessionState::Terminating, SessionAction::Stop),
        SessionEvent::Shutdown => (SessionState::Terminating, SessionAction::Stop),
    }
}

/// The reply one batch's store outcome produces: nothing on full success,
/// else one message carrying every failing id with its wire error code. A
/// failure never aborts the session; the loop proceeds to the next batch.
pub fn batch_reply(outcome: Result<(), Vec<(i32, FailureKind)>>) -> (r: Option<StreamReply>)
    ensures
        outcome is Ok ==> r is None,
        outcome matches Err(f) ==> r matches Some(rep) && rep.errors@ == spec_translate_failures(
            f@,
        ),
{
    match outcome {
        Ok(()) => None,
        Err(failures) => Some(StreamReply { errors: translate_failures(&failures) }),
    }
}

/// How many events an ingestion session examines as batches: the index of the
/// first terminating event, or the whole sequence when none terminates it.
pub open spec fn spec_session_cut(events: Seq<SessionEvent>) -> nat
    decreases events.len(),
{
    if events.len() == 0 {
        0
    } else if events[0] is Batch {
        1 + spec_session_cut(events.drop_first())
    } else {
        0
    }
}

/// The state a session is left in by a finite run of events: terminating as
/// soon as one event terminates it, else still active and waiting.
pub open spec fn spec_session_outcome(events: Seq<SessionEvent>) -> SessionState {
    if spec_session_cut(events) < events.len() {
        SessionState::Terminating
    } else {
        SessionState::Active
    }
}

/// The cut is exactly the position of the first terminating event.
proof fn lemma_session_cut_at(events: Seq<SessionEvent>, k: int)
    requires
        0 <= k <= events.len(),
        forall|j: int| 0 <= j < k ==> events[j] is Batch,
        k < events.len() ==> !(events[k] is Batch),
    ensures
        spec_session_cut(events) == k,
    decreases k,
{
    if events.len() == 0 {
    } else if k == 0 {
    } else {
        assert(events[0] is Batch);
        assert forall|j: int| 0 <= j < k - 1 implies events.drop_first()[j] is Batch by {
            assert(events.drop_first()[j] == events[j + 1]);
        }
        if k - 1 < events.drop_first().len() {
            assert(events.drop_first()[k - 1] == events[k]);
        }
        lemma_session_cut_at(events.drop_first(), k - 1);
    }
}

/// Runs one ingestion session over a finite sequence of observed events.
/// Authorization happens exactly once, at session start, and covers every
/// message; without it the session fails as a whole and the store is never
/// consulted. Events are then examined strictly in order: each batch is
/// applied through the store and its failures, if any, become one reply;
/// the first terminating event — clean end of stream, transport error, or
/// shutdown — halts all further processing, and nothing past it is examined.
pub fn run_session<S: Store>(
    store: &mut S,
    permissions: Option<&Permissions>,
    events: Vec<SessionEvent>,
) -> (r: Result<(Vec<StreamReply>, SessionState), RpcStatus>)
    ensures
        permissions is None ==> (r matches Err(s) && is_unauthenticated(s)) && *final(store)
            == *old(store),
        permissions is Some ==> (r matches Ok(out) && out.1 == spec_session_outcome(events@)
            && out.0@.len() <= spec_session_cut(events@)),
        spec_session_cut(events@) == 0 ==> *final(store) == *old(store),
{
    let permissions = match permissions {
        Some(p) => p,
        None => { return Err(unauthenticated_status()); },
    };
    let ghost all = events@;
    let mut rest = events;
    let mut replies: Vec<StreamReply> = Vec::new();
    let mut state = SessionState::Active;
    while state == SessionState::Active && rest.len() > 0
        invariant
            rest@.len() <= all.len(),
            state is Active || state is Terminating,
            state is Active ==> rest@ =~= all.skip(all.len() - rest@.len()),
            state is Active ==> (forall|j: int|
                0 <= j < all.len() - rest@.len() ==> all[j] is Batch),
            state is Active ==> replies@.len() <= all.len() - rest@.len(),
            state is Terminating ==> spec_session_cut(all) < all.len() && replies@.len()
                <= spec_session_cut(all),
            all == events@,
            spec_session_cut(all) == 0 ==> *store == *old(store),
        decreases rest@.len(),
    {
        let ghost k = all.len() - rest@.len();
        let event = rest.remove(0);
        proof {
            assert(event == all[k]);
            assert(rest@ =~= all.skip(k + 1));
        }
        let (next, action) = session_step(event);
        match action {
            SessionAction::Apply(updates) => {
                proof {
                    // The event just examined is a batch, so every event up to
                    // and including index k is one, and the cut lies past it.
                    assert(all[0] is Batch);
                    assert(spec_session_cut(all) != 0);
                }
                let outcome = store.update_entries(permissions, updates);
                if let Some(rep) = batch_reply(outcome) {
                    replies.push(rep);
                }
            },
            SessionAction::Stop => {},
        }
        proof {
            if !(all[k] is Batch) {
                lemma_session_cut_at(all, k);
            }
        }
        state = next;
    }
    proof {
        if state is Active {
            lemma_session_cut_at(all, all.len() as int);
        }
    }
    Ok((replies, state))
}

} // verus!

