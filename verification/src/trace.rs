//! What holds of whole runs of a session: sequences of events, with the
//! effects they bring about one after the other. Here stand the runs
//! themselves, what every reachable state has in common, and what holds of
//! the handshake and of the teardown.

use vstd::prelude::*;
use crate::db::{ServerRow, VoiceStateRow};
use crate::session::{distinct_ids, After, Effect, Event, Pending, Phase, SessionState, StoreReply, StoreRequest};
use crate::text::holds;
use crate::ws_messages::{Inbound, Outbound};

verus! {

/// The state that a session reaches through `events`, and all the effects it
/// asked for on the way, in order.
pub open spec fn run(state: SessionState, events: Seq<Event>) -> (SessionState, Seq<Effect>)
    decreases events.len(),
{
    if events.len() == 0 {
        (state, Seq::empty())
    } else {
        let (before, effects) = run(state, events.drop_last());
        let (next, last) = before.step(events.last());
        (next, effects + last)
    }
}

/// A run through some events and one more is the run through the events,
/// then the step that the last event brings about.
pub proof fn lemma_run_push(state: SessionState, events: Seq<Event>, event: Event)
    ensures
        ({
            let (before, effects) = run(state, events);
            let (next, last) = before.step(event);
            run(state, events.push(event)) == (next, effects + last)
        }),
{
    assert(events.push(event).drop_last() =~= events);
}

/// A run through some events and then through more is the run through all
/// of them.
pub proof fn lemma_run_on(state: SessionState, events: Seq<Event>, more: Seq<Event>)
    ensures
        ({
            let (mid, before) = run(state, events);
            let (end, after) = run(mid, more);
            run(state, events + more) == (end, before + after)
        }),
    decreases more.len(),
{
    let (mid, before) = run(state, events);
    if more.len() == 0 {
        assert(events + more =~= events);
        assert(before + Seq::<Effect>::empty() =~= before);
    } else {
        lemma_run_on(state, events, more.drop_last());
        assert((events + more).drop_last() =~= events + more.drop_last());
        assert((events + more).last() == more.last());
        let (almost, after) = run(mid, more.drop_last());
        let last = almost.step(more.last()).1;
        assert((before + after) + last =~= before + (after + last));
    }
}

/// What a session plans to do after the announcement it is busy with.
pub open spec fn planned(pending: Pending) -> Option<After> {
    match pending {
        Pending::Vacating { then } => Some(then),
        Pending::Occupants { then, .. } => Some(then),
        Pending::OccupantsRoom { then, .. } => Some(then),
        _ => None,
    }
}

/// No room occurs twice in `rooms`.
pub open spec fn each_once(rooms: Seq<String>) -> bool {
    forall|i: int, j: int|
        0 <= i < j < rooms.len() ==> (#[trigger] rooms[i])@ != (#[trigger] rooms[j])@
}

/// What holds of every state that a session can reach: before the handshake
/// is over it waits for nothing but the verdict and the rooms and is
/// subscribed to nothing; once authenticated it never plans a teardown
/// without the socket being lost; while closing it plans nothing else; once
/// closed it waits for nothing; and it never counts a room twice.
pub open spec fn coherent(state: SessionState) -> bool {
    &&& each_once(state.rooms)
    &&& match state.phase {
        Phase::AwaitingAuth => {
            &&& state.pending is Idle || state.pending is Verdict || state.pending is Rooms
            &&& state.rooms.len() == 0
        },
        Phase::Authenticated => {
            &&& !(state.pending is Verdict)
            &&& !(state.pending is Rooms)
            &&& planned(state.pending) != Some(After::Teardown)
        },
        Phase::Closing => planned(state.pending) == Some(After::Teardown),
        Phase::Closed => state.pending is Idle && state.rooms.len() == 0,
    }
}

/// No room occurs twice among the ids that `distinct_ids` keeps, and each id
/// kept is the id of a row.
pub proof fn lemma_distinct_ids(rows: Seq<ServerRow>)
    ensures
        forall|i: int, j: int|
            0 <= i < j < distinct_ids(rows).len() ==> (#[trigger] distinct_ids(rows)[i])@ != (
            #[trigger] distinct_ids(rows)[j])@,
        forall|k: int|
            0 <= k < rows.len() ==> holds(distinct_ids(rows), (#[trigger] rows[k]).id@),
    decreases rows.len(),
{
    if rows.len() > 0 {
        let before = rows.drop_last();
        lemma_distinct_ids(before);
        let kept = distinct_ids(before);
        let all = distinct_ids(rows);
        assert forall|k: int| 0 <= k < rows.len() implies holds(all, (#[trigger] rows[k]).id@) by {
            if k < rows.len() - 1 {
                assert(before[k] == rows[k]);
                assert(holds(kept, before[k].id@));
                let i = choose|i: int| 0 <= i < kept.len() && (#[trigger] kept[i])@ == rows[k].id@;
                assert(all[i]@ == rows[k].id@);
            } else {
                if holds(kept, rows.last().id@) {
                } else {
                    assert(all[kept.len() as int]@ == rows[k].id@);
                }
            }
        }
    }
}

/// A session starts coherent and every step keeps it so.
pub proof fn lemma_coherent(connection: u64, user_id: String, state: SessionState, event: Event)
    ensures
        coherent(SessionState::opened(connection, user_id)),
        coherent(state) ==> coherent(state.step(event).0),
{
    if coherent(state) {
        match (state.phase, state.pending, event) {
            (Phase::AwaitingAuth, Pending::Rooms, Event::Reply(StoreReply::Rooms(rows))) => {
                lemma_distinct_ids(rows@);
            },
            _ => {},
        }
    }
}

/// A closed session stays closed and asks for nothing, whatever happens.
pub proof fn lemma_closed_is_final(state: SessionState, events: Seq<Event>)
    requires
        state.phase is Closed,
    ensures
        run(state, events) == (state, Seq::<Effect>::empty()),
    decreases events.len(),
{
    if events.len() > 0 {
        lemma_closed_is_final(state, events.drop_last());
        assert(Seq::<Effect>::empty() + Seq::<Effect>::empty() =~= Seq::<Effect>::empty());
    }
}

/// Whether an effect subscribes anyone to a room.
pub open spec fn is_subscribe(effect: Effect) -> bool {
    effect is Subscribe
}

/// A frame whose tag is not `auth` does not decode to an `auth` message.
pub proof fn lemma_auth_needs_its_tag(text: Seq<char>)
    requires
        match Inbound::tag_of(text) {
            Some(tag) => tag@ != "auth"@,
            None => true,
        },
    ensures
        !(Inbound::decoded(text) matches Some(Inbound::Auth(_))),
{
}

/// The handshake gate. On a connection that has not authenticated, a first
/// frame with any tag but `auth` (or with none) closes the connection: the
/// only effect ever asked for is to close the socket, so that nobody is
/// subscribed to anything, and whatever follows is ignored.
pub proof fn lemma_handshake_gate(connection: u64, user_id: String, text: String, later: Seq<Event>)
    requires
        match Inbound::tag_of(text@) {
            Some(tag) => tag@ != "auth"@,
            None => true,
        },
    ensures
        ({
            let (end, effects) = run(
                SessionState::opened(connection, user_id),
                seq![Event::Frame(text)] + later,
            );
            &&& end.phase is Closed
            &&& end.rooms.len() == 0
            &&& effects == seq![Effect::Close]
            &&& forall|i: int| 0 <= i < effects.len() ==> !is_subscribe(#[trigger] effects[i])
        }),
{
    let start = SessionState::opened(connection, user_id);
    let first = seq![Event::Frame(text)];
    lemma_auth_needs_its_tag(text@);
    lemma_run_push(start, Seq::empty(), Event::Frame(text));
    assert(Seq::<Effect>::empty() + seq![Effect::Close] =~= seq![Effect::Close]);
    assert(run(start, first) == (start.closed(), seq![Effect::Close]));
    lemma_run_on(start, first, later);
    lemma_closed_is_final(start.closed(), later);
    assert(seq![Effect::Close] + Seq::<Effect>::empty() =~= seq![Effect::Close]);
}

/// A malformed `auth` is answered. On a connection that has not
/// authenticated, a first frame tagged `auth` whose payload is missing or is
/// no token is answered with one error, then the connection closes: the
/// verifier is not asked, nobody is subscribed, and whatever follows is
/// ignored.
pub proof fn lemma_malformed_auth_is_answered(
    connection: u64,
    user_id: String,
    text: String,
    later: Seq<Event>,
)
    requires
        Inbound::malformed_auth(text@),
    ensures
        run(SessionState::opened(connection, user_id), seq![Event::Frame(text)] + later) == (
            SessionState::opened(connection, user_id).closed(),
            seq![Effect::Send(Outbound::MalformedAuth), Effect::Close],
        ),
{
    let start = SessionState::opened(connection, user_id);
    let first = seq![Event::Frame(text)];
    let answer = seq![Effect::Send(Outbound::MalformedAuth), Effect::Close];
    lemma_run_push(start, Seq::empty(), Event::Frame(text));
    assert(Seq::<Effect>::empty() + answer =~= answer);
    assert(run(start, first) == (start.closed(), answer));
    lemma_run_on(start, first, later);
    lemma_closed_is_final(start.closed(), later);
    assert(answer + Seq::<Effect>::empty() =~= answer);
}

/// Whether the verifier names a user in `event`.
pub open spec fn admits(event: Event) -> bool {
    event matches Event::Verdict(Some(_))
}

/// No subscription without the verifier's word. Through any events
/// whatever, as long as the verifier names no user in any of them, a
/// connection asks for no subscription, stays subscribed to nothing and is
/// never authenticated: it waits for the first frame or for the verdict, or
/// it is closed.
pub proof fn lemma_no_subscription_unadmitted(connection: u64, user_id: String, events: Seq<Event>)
    requires
        forall|i: int| 0 <= i < events.len() ==> !admits(#[trigger] events[i]),
    ensures
        ({
            let (end, effects) = run(SessionState::opened(connection, user_id), events);
            &&& end.phase is AwaitingAuth || end.phase is Closed
            &&& end.pending is Idle || end.pending is Verdict
            &&& end.rooms.len() == 0
            &&& forall|i: int| 0 <= i < effects.len() ==> !is_subscribe(#[trigger] effects[i])
        }),
    decreases events.len(),
{
    if events.len() > 0 {
        let front = events.drop_last();
        assert forall|i: int| 0 <= i < front.len() implies !admits(#[trigger] front[i]) by {
            assert(front[i] == events[i]);
        }
        lemma_no_subscription_unadmitted(connection, user_id, front);
        let (before, effects) = run(SessionState::opened(connection, user_id), front);
        let (next, last) = before.step(events.last());
        assert(!admits(events[events.len() - 1]));
        assert forall|i: int| 0 <= i < (effects + last).len() implies !is_subscribe(
            #[trigger] (effects + last)[i],
        ) by {
            if i >= effects.len() {
                assert((effects + last)[i] == last[i - effects.len()]);
            } else {
                assert((effects + last)[i] == effects[i]);
            }
        }
    }
}

/// Before the verdict is in, nothing but the verdict keeps the connection
/// open: a second frame, an answer nobody asked for or the loss of the
/// socket close it, and nobody is subscribed.
pub proof fn lemma_handshake_admits_only_the_verdict(state: SessionState, event: Event)
    requires
        state.phase is AwaitingAuth,
        state.pending is Verdict,
        !(event is Verdict),
    ensures
        state.step(event) == (state.closed(), seq![Effect::Close]),
{
}

/// Idempotent subscription, on the side of the connection. The handshake
/// asks for exactly one subscription per room, however often the store lists
/// a room: the effects are one `Subscribe` for each distinct room and the
/// greeting, so that a connection never holds two receivers for one room.
pub proof fn lemma_one_subscription_per_room(state: SessionState, rows: Vec<ServerRow>)
    requires
        state.phase is AwaitingAuth,
        state.pending is Rooms,
    ensures
        ({
            let (next, effects) = state.step(Event::Reply(StoreReply::Rooms(rows)));
            let rooms = distinct_ids(rows@);
            &&& next.phase is Authenticated
            &&& next.rooms == rooms
            &&& effects.len() == rooms.len() + 1
            &&& effects.last() == Effect::Send(Outbound::AuthSuccess)
            &&& forall|i: int|
                0 <= i < rooms.len() ==> #[trigger] effects[i] == (Effect::Subscribe {
                    connection: state.connection,
                    user_id: state.user_id,
                    room_id: rooms[i],
                })
            &&& forall|i: int, j: int|
                0 <= i < j < rooms.len() ==> (#[trigger] rooms[i])@ != (#[trigger] rooms[j])@
        }),
{
    lemma_distinct_ids(rows@);
}

/// Teardown emits the vacancy. When the socket of an authenticated
/// connection is lost while the user occupies a voice channel, the session
/// has the store clear the presence, publishes exactly one announcement of
/// the channel's occupants, as listed after the user left, to the channel's
/// room, removes this connection's subscriptions and closes; whatever
/// follows is ignored.
pub proof fn lemma_teardown_announces_vacancy(
    state: SessionState,
    channel_id: String,
    occupants: Vec<VoiceStateRow>,
    room_id: String,
    later: Seq<Event>,
)
    requires
        state.phase is Authenticated,
    ensures
        run(
            state,
            seq![
                Event::Hangup,
                Event::Reply(StoreReply::Left(Some(channel_id))),
                Event::Reply(StoreReply::Occupants(occupants)),
                Event::Reply(StoreReply::Room(Some(room_id))),
            ] + later,
        ) == (
            state.closed(),
            seq![
                Effect::Query(StoreRequest::LeaveVoice { user_id: state.user_id }),
                Effect::Query(StoreRequest::VoiceOccupants { channel_id }),
                Effect::Query(StoreRequest::RoomForChannel { channel_id }),
                Effect::Publish {
                    room_id,
                    message: Outbound::VoiceStateUpdate { channel_id, occupants },
                },
                Effect::Unsubscribe { connection: state.connection, user_id: state.user_id },
                Effect::Close,
            ],
        ),
{
    let e0 = Event::Hangup;
    let e1 = Event::Reply(StoreReply::Left(Some(channel_id)));
    let e2 = Event::Reply(StoreReply::Occupants(occupants));
    let e3 = Event::Reply(StoreReply::Room(Some(room_id)));
    let script = seq![e0, e1, e2, e3];
    let (s1, f0) = state.step(e0);
    let (s2, f1) = s1.step(e1);
    let (s3, f2) = s2.step(e2);
    let (s4, f3) = s3.step(e3);
    assert(s4 == state.closed());
    let r1 = Seq::<Event>::empty().push(e0);
    let r2 = r1.push(e1);
    let r3 = r2.push(e2);
    lemma_run_push(state, Seq::empty(), e0);
    assert(run(state, r1) == (s1, f0)) by {
        assert(Seq::<Effect>::empty() + f0 =~= f0);
    }
    lemma_run_push(state, r1, e1);
    lemma_run_push(state, r2, e2);
    lemma_run_push(state, r3, e3);
    assert(script =~= r3.push(e3));
    assert(run(state, script) == (s4, f0 + f1 + f2 + f3));
    lemma_run_on(state, script, later);
    lemma_closed_is_final(s4, later);
    assert(run(state, script).1 + Seq::<Effect>::empty() =~= run(state, script).1);
}

/// Teardown runs once and always ends. Whatever the store answers, three
/// answers after the socket of an authenticated connection is lost the
/// session is closed; it has asked exactly once, as the last thing before
/// closing, to remove this connection's subscriptions; and it has published at most
/// one announcement, which it did only where the store reported a vacated
/// channel, its occupants and its room.
pub proof fn lemma_teardown_ends(
    state: SessionState,
    first: StoreReply,
    second: StoreReply,
    third: StoreReply,
    later: Seq<Event>,
)
    requires
        state.phase is Authenticated,
    ensures
        ({
            let (end, effects) = run(
                state,
                seq![
                    Event::Hangup,
                    Event::Reply(first),
                    Event::Reply(second),
                    Event::Reply(third),
                ] + later,
            );
            let n = effects.len();
            &&& end == state.closed()
            &&& 3 <= n <= 6
            &&& effects[n - 1] == Effect::Close
            &&& effects[n - 2] == Effect::Unsubscribe { connection: state.connection, user_id: state.user_id }
            &&& forall|i: int| 0 <= i < n - 2 ==> !((#[trigger] effects[i]) is Unsubscribe)
            &&& forall|i: int|
                0 <= i < n && (#[trigger] effects[i]) is Publish ==> {
                    &&& i == 3
                    &&& n == 6
                    &&& first is Left
                    &&& second is Occupants
                    &&& third is Room
                }
        }),
{
    let e0 = Event::Hangup;
    let e1 = Event::Reply(first);
    let e2 = Event::Reply(second);
    let e3 = Event::Reply(third);
    let script = seq![e0, e1, e2, e3];
    let (s1, f0) = state.step(e0);
    let (s2, f1) = s1.step(e1);
    let (s3, f2) = s2.step(e2);
    let (s4, f3) = s3.step(e3);
    assert(s4 == state.closed());
    let r1 = Seq::<Event>::empty().push(e0);
    let r2 = r1.push(e1);
    let r3 = r2.push(e2);
    lemma_run_push(state, Seq::empty(), e0);
    assert(run(state, r1) == (s1, f0)) by {
        assert(Seq::<Effect>::empty() + f0 =~= f0);
    }
    lemma_run_push(state, r1, e1);
    lemma_run_push(state, r2, e2);
    lemma_run_push(state, r3, e3);
    assert(script =~= r3.push(e3));
    assert(run(state, script) == (s4, f0 + f1 + f2 + f3));
    lemma_run_on(state, script, later);
    lemma_closed_is_final(s4, later);
    assert(run(state, script).1 + Seq::<Effect>::empty() =~= run(state, script).1);
}

} // verus!
