//! Voice presence: a user occupies one voice channel at most, and whoever
//! listens to a channel hears of a vacancy before the user shows up
//! elsewhere. The store holds the presence; what is shown here is that a
//! session asks the store in an order that keeps both true.

use vstd::prelude::*;
use crate::db::VoiceStateRow;
use crate::session::{distinct_ids, After, Effect, Event, Pending, Phase, SessionState, StoreReply, StoreRequest};
use crate::trace::{coherent, lemma_coherent, lemma_distinct_ids, lemma_run_push, planned, run};
use crate::ws_messages::{Inbound, Outbound, WsJoinVoice};

verus! {

/// Entering a voice channel while occupying another. When every answer of
/// the store is the good one, the session first has the store clear the old
/// presence, announces the occupants of the old channel to the old
/// channel's room, and only then has the store record the new presence and
/// announces the occupants of the new channel: the vacancy goes out before
/// the occupancy, and the store is never asked to hold the user in two
/// channels.
pub proof fn lemma_join_vacates_first(
    state: SessionState,
    frame: String,
    join: WsJoinVoice,
    old_channel: String,
    old_occupants: Vec<VoiceStateRow>,
    old_room: String,
    new_occupants: Vec<VoiceStateRow>,
    new_room: String,
)
    requires
        state.phase is Authenticated,
        state.pending is Idle,
        Inbound::decoded(frame@) == Some(Inbound::JoinVoice(join)),
        old_channel@ != join.channel_id.text()@,
    ensures
        ({
            let target = join.channel_id.text();
            let user_id = state.user_id;
            run(
                state,
                seq![
                    Event::Frame(frame),
                    Event::Reply(StoreReply::VoiceChannel(Some(old_channel))),
                    Event::Reply(StoreReply::Left(Some(old_channel))),
                    Event::Reply(StoreReply::Occupants(old_occupants)),
                    Event::Reply(StoreReply::Room(Some(old_room))),
                    Event::Reply(StoreReply::Done),
                    Event::Reply(StoreReply::Occupants(new_occupants)),
                    Event::Reply(StoreReply::Room(Some(new_room))),
                ],
            ) == (
                state,
                seq![
                    Effect::Query(StoreRequest::UserVoiceChannel { user_id }),
                    Effect::Query(StoreRequest::LeaveVoice { user_id }),
                    Effect::Query(StoreRequest::VoiceOccupants { channel_id: old_channel }),
                    Effect::Query(StoreRequest::RoomForChannel { channel_id: old_channel }),
                    Effect::Publish {
                        room_id: old_room,
                        message: Outbound::VoiceStateUpdate {
                            channel_id: old_channel,
                            occupants: old_occupants,
                        },
                    },
                    Effect::Query(StoreRequest::JoinVoice { user_id, channel_id: target }),
                    Effect::Query(StoreRequest::VoiceOccupants { channel_id: target }),
                    Effect::Query(StoreRequest::RoomForChannel { channel_id: target }),
                    Effect::Publish {
                        room_id: new_room,
                        message: Outbound::VoiceStateUpdate {
                            channel_id: target,
                            occupants: new_occupants,
                        },
                    },
                ],
            )
        }),
{
    let e0 = Event::Frame(frame);
    let e1 = Event::Reply(StoreReply::VoiceChannel(Some(old_channel)));
    let e2 = Event::Reply(StoreReply::Left(Some(old_channel)));
    let e3 = Event::Reply(StoreReply::Occupants(old_occupants));
    let e4 = Event::Reply(StoreReply::Room(Some(old_room)));
    let e5 = Event::Reply(StoreReply::Done);
    let e6 = Event::Reply(StoreReply::Occupants(new_occupants));
    let e7 = Event::Reply(StoreReply::Room(Some(new_room)));
    let events = seq![e0, e1, e2, e3, e4, e5, e6, e7];
    let (s1, f0) = state.step(e0);
    let (s2, f1) = s1.step(e1);
    let (s3, f2) = s2.step(e2);
    let (s4, f3) = s3.step(e3);
    let (s5, f4) = s4.step(e4);
    let (s6, f5) = s5.step(e5);
    let (s7, f6) = s6.step(e6);
    let (s8, f7) = s7.step(e7);
    assert(s8 == state);
    let r1 = Seq::<Event>::empty().push(e0);
    let r2 = r1.push(e1);
    let r3 = r2.push(e2);
    let r4 = r3.push(e3);
    let r5 = r4.push(e4);
    let r6 = r5.push(e5);
    let r7 = r6.push(e6);
    lemma_run_push(state, Seq::empty(), e0);
    assert(run(state, r1) == (s1, f0)) by {
        assert(Seq::<Effect>::empty() + f0 =~= f0);
    }
    lemma_run_push(state, r1, e1);
    lemma_run_push(state, r2, e2);
    lemma_run_push(state, r3, e3);
    lemma_run_push(state, r4, e4);
    lemma_run_push(state, r5, e5);
    lemma_run_push(state, r6, e6);
    lemma_run_push(state, r7, e7);
    assert(events =~= r7.push(e7));
    assert(run(state, events) == (s8, f0 + f1 + f2 + f3 + f4 + f5 + f6 + f7));
    assert(run(state, events).1 =~= f0 + f1 + f2 + f3 + f4 + f5 + f6 + f7);
}

/// Single occupancy, on the side of the hub. A session asks the store to
/// record the user in a voice channel only in two cases: the store has just
/// said that the user occupies no channel or this very channel; or the
/// session had planned the entry for after a vacancy, which
/// `lemma_plans_entry_after_leave` shows it does only together with asking
/// the store to clear the old presence.
pub proof fn lemma_enters_only_when_vacant(
    state: SessionState,
    event: Event,
    user_id: String,
    channel_id: String,
)
    requires
        state.step(event).1.contains(
            Effect::Query(StoreRequest::JoinVoice { user_id, channel_id }),
        ),
    ensures
        user_id == state.user_id,
        state.phase is Authenticated,
        match state.pending {
            Pending::CurrentVoice { target } => {
                &&& target == channel_id
                &&& event matches Event::Reply(StoreReply::VoiceChannel(current))
                &&& (current is None || current->0@ == channel_id@)
            },
            other => {
                &&& planned(other) == Some(After::Join { channel_id })
                &&& event is Reply
            },
        },
{
    let effects = state.step(event).1;
    let wanted = Effect::Query(StoreRequest::JoinVoice { user_id, channel_id });
    let i = choose|i: int| 0 <= i < effects.len() && effects[i] == wanted;
    assert(effects[i] == wanted);
    match state.phase {
        Phase::AwaitingAuth => {
            match (state.pending, event) {
                (Pending::Rooms, Event::Reply(reply)) => {
                    let rooms = match reply {
                        StoreReply::Rooms(rows) => distinct_ids(rows@),
                        _ => Seq::empty(),
                    };
                    if i < rooms.len() {
                        assert(effects[i] is Subscribe);
                    }
                },
                _ => {},
            }
        },
        _ => {},
    }
}

/// A session plans an entry for after a vacancy only when the store has
/// just said that the user occupies another voice channel, and with the
/// plan it asks the store to clear that presence.
pub proof fn lemma_plans_entry_after_leave(state: SessionState, event: Event, channel_id: String)
    requires
        coherent(state),
        planned(state.pending) != Some(After::Join { channel_id }),
        planned(state.step(event).0.pending) == Some(After::Join { channel_id }),
    ensures
        state.phase is Authenticated,
        state.pending == (Pending::CurrentVoice { target: channel_id }),
        event matches Event::Reply(StoreReply::VoiceChannel(Some(current))) && current@
            != channel_id@,
        state.step(event) == (
            state.awaiting(Pending::Vacating { then: After::Join { channel_id } }),
            seq![Effect::Query(StoreRequest::LeaveVoice { user_id: state.user_id })],
        ),
{
}

/// What a session waits for is what it asked. A step asks the store one
/// question at most, as its last effect. When the question is to enter a
/// voice channel, the session then waits in `Joining` for that channel;
/// when it is to leave, in `Vacating`; and a session comes to wait in
/// either only by asking: so `occupied_after` changes the channels exactly
/// when the store answers such a question.
pub proof fn lemma_waits_for_what_it_asked(state: SessionState, event: Event)
    ensures
        ({
            let (next, effects) = state.step(event);
            &&& forall|i: int|
                0 <= i < effects.len() && (#[trigger] effects[i]) is Query ==> i == effects.len()
                    - 1
            &&& forall|user_id: String, channel_id: String|
                effects.len() > 0 && effects.last() == Effect::Query(
                    StoreRequest::JoinVoice { user_id, channel_id },
                ) ==> user_id == state.user_id && next.pending == (Pending::Joining {
                    channel_id,
                })
            &&& forall|user_id: String|
                effects.len() > 0 && effects.last() == Effect::Query(
                    StoreRequest::LeaveVoice { user_id },
                ) ==> user_id == state.user_id && next.pending is Vacating
            &&& (next.pending is Joining || next.pending is Vacating) ==> {
                ||| (next == state && effects.len() == 0)
                ||| (effects.len() > 0 && match next.pending {
                    Pending::Joining { channel_id } => effects.last() == Effect::Query(
                        StoreRequest::JoinVoice { user_id: state.user_id, channel_id },
                    ),
                    _ => effects.last() == Effect::Query(
                        StoreRequest::LeaveVoice { user_id: state.user_id },
                    ),
                })
            }
        }),
{
    let effects = state.step(event).1;
    match (state.phase, state.pending, event) {
        (Phase::AwaitingAuth, Pending::Rooms, Event::Reply(reply)) => {
            let rooms = match reply {
                StoreReply::Rooms(rows) => distinct_ids(rows@),
                _ => Seq::empty(),
            };
            assert forall|i: int| 0 <= i < effects.len() implies !((#[trigger] effects[i]) is Query) by {
                if i < rooms.len() {
                    assert(effects[i] is Subscribe);
                }
            }
        },
        _ => {},
    }
}

/// Whether a set of voice channels holds one channel at most.
pub open spec fn at_most_one(channels: Set<Seq<char>>) -> bool {
    forall|a: Seq<char>, b: Seq<char>| channels.contains(a) && channels.contains(b) ==> a == b
}

/// The voice channels that the user of a session occupies once the store
/// has given `event` as its answer, for a store that records what it is
/// asked and nothing more: entering a channel adds the channel and evicts
/// the user from no other, leaving clears them all.
pub open spec fn occupied_after(
    state: SessionState,
    occupied: Set<Seq<char>>,
    event: Event,
) -> Set<Seq<char>> {
    match (state.pending, event) {
        (Pending::Joining { channel_id }, Event::Reply(StoreReply::Done)) => occupied.insert(
            channel_id@,
        ),
        (Pending::Vacating { .. }, Event::Reply(StoreReply::Left(_))) => Set::empty(),
        _ => occupied,
    }
}

/// Whether `event` is fair to a session: where it answers the question for
/// the user's voice channel, the answer names a channel that the user
/// occupies, or none where the user occupies none. Nothing else is asked of
/// the events: frames, failures and answers of the wrong kind are all fair.
pub open spec fn fair(state: SessionState, occupied: Set<Seq<char>>, event: Event) -> bool {
    match (state.pending, event) {
        (Pending::CurrentVoice { .. }, Event::Reply(StoreReply::VoiceChannel(current))) => {
            match current {
                Some(channel_id) => occupied.contains(channel_id@),
                None => occupied =~= Set::empty(),
            }
        },
        _ => true,
    }
}

/// The state of a session and the voice channels its user occupies after
/// `events`.
pub open spec fn reach(state: SessionState, occupied: Set<Seq<char>>, events: Seq<Event>) -> (
    SessionState,
    Set<Seq<char>>,
)
    decreases events.len(),
{
    if events.len() == 0 {
        (state, occupied)
    } else {
        let (before, held) = reach(state, occupied, events.drop_last());
        (before.step(events.last()).0, occupied_after(before, held, events.last()))
    }
}

/// Whether every one of `events` is fair at the point where it happens.
pub open spec fn fair_run(state: SessionState, occupied: Set<Seq<char>>, events: Seq<Event>) -> bool
    decreases events.len(),
{
    if events.len() == 0 {
        true
    } else {
        let (before, held) = reach(state, occupied, events.drop_last());
        fair_run(state, occupied, events.drop_last()) && fair(before, held, events.last())
    }
}

/// What a session keeps true of the voice channels its user occupies: one
/// at most; while the store is asked to enter a channel, none but that
/// channel; and between a vacancy and the entry planned after it, none.
pub open spec fn tidy(state: SessionState, occupied: Set<Seq<char>>) -> bool {
    &&& coherent(state)
    &&& at_most_one(occupied)
    &&& match state.pending {
        Pending::Joining { channel_id } => forall|c: Seq<char>|
            occupied.contains(c) ==> c == channel_id@,
        Pending::Occupants { then: After::Join { .. }, .. } => occupied =~= Set::empty(),
        Pending::OccupantsRoom { then: After::Join { .. }, .. } => occupied =~= Set::empty(),
        _ => true,
    }
}

/// A session that has just authenticated is tidy whatever the store holds,
/// as long as that is one voice channel at most.
pub proof fn lemma_tidy_at_start(state: SessionState, occupied: Set<Seq<char>>)
    requires
        coherent(state),
        state.pending is Idle,
        at_most_one(occupied),
    ensures
        tidy(state, occupied),
{
}

/// One fair event keeps a session tidy.
pub proof fn lemma_step_keeps_tidy(state: SessionState, occupied: Set<Seq<char>>, event: Event)
    requires
        tidy(state, occupied),
        fair(state, occupied, event),
    ensures
        tidy(state.step(event).0, occupied_after(state, occupied, event)),
{
    lemma_coherent(state.connection, state.user_id, state, event);
    match (state.phase, state.pending, event) {
        (Phase::AwaitingAuth, Pending::Rooms, Event::Reply(StoreReply::Rooms(rows))) => {
            lemma_distinct_ids(rows@);
        },
        _ => {},
    }
}

/// Single occupancy. Take a store that never evicts anyone: it records each
/// entry into a voice channel that it is asked for, beside whatever it holds
/// already. Let one session run against it through any events whatever
/// (frames in any number and order, failures, answers of any kind), as long
/// as the store answers truthfully when asked for the user's channel. Then
/// at every point of the run the user occupies one voice channel at most:
/// the session never asks for an entry before the old presence is cleared.
pub proof fn lemma_single_occupancy(
    state: SessionState,
    occupied: Set<Seq<char>>,
    events: Seq<Event>,
    upto: int,
)
    requires
        tidy(state, occupied),
        fair_run(state, occupied, events),
        0 <= upto <= events.len(),
    ensures
        tidy(reach(state, occupied, events.take(upto)).0, reach(state, occupied, events.take(upto)).1),
        at_most_one(reach(state, occupied, events.take(upto)).1),
    decreases events.len(),
{
    if events.len() == 0 {
        assert(events.take(upto) =~= events);
    } else if upto == events.len() {
        assert(events.take(upto) =~= events);
        let front = events.drop_last();
        lemma_single_occupancy(state, occupied, front, front.len() as int);
        assert(front.take(front.len() as int) =~= front);
        let (before, held) = reach(state, occupied, front);
        lemma_step_keeps_tidy(before, held, events.last());
    } else {
        let front = events.drop_last();
        lemma_single_occupancy(state, occupied, front, upto);
        assert(front.take(upto) =~= events.take(upto));
    }
}

} // verus!
