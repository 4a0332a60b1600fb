//! Where sessions meet the registry: what the effects of a session do to the
//! rooms and to the subscription table.

use vstd::prelude::*;
use crate::db::ServerRow;
use crate::session::{Effect, Event, SessionState, StoreReply};
use crate::trace::lemma_distinct_ids;
use crate::ws::{lemma_rooms_in, lemma_without_contains, lemma_without_others, lemma_without_rooms, listens, listens_elsewhere, rooms_in, with_entry, without, Entry, WsState};
use tokio::sync::broadcast::Receiver;

verus! {

/// The subscription table once an effect is performed: a subscription adds
/// its entry unless it is there, the end of a teardown removes the entries
/// of that connection, and nothing else touches the table.
pub open spec fn table_after(entries: Seq<Entry>, effect: Effect) -> Seq<Entry> {
    match effect {
        Effect::Subscribe { connection, user_id, room_id } => with_entry(
            entries,
            (connection, user_id@, room_id@),
        ),
        Effect::Unsubscribe { connection, user_id } => without(entries, connection, user_id@),
        _ => entries,
    }
}

/// The subscription table once the effects are performed, in order.
pub open spec fn table_after_all(entries: Seq<Entry>, effects: Seq<Effect>) -> Seq<Entry>
    decreases effects.len(),
{
    if effects.len() == 0 {
        entries
    } else {
        table_after(table_after_all(entries, effects.drop_last()), effects.last())
    }
}

/// Whether performing an effect publishes a frame: the effect publishes a
/// message of which a frame can be made to a room that has a channel.
pub open spec fn goes_out(registry: WsState, effect: Effect) -> bool {
    match effect {
        Effect::Publish { room_id, message } => message.wire() is Some && registry.has_topic(
            room_id@,
        ),
        _ => false,
    }
}

/// Whether performing an effect hands out a receiver: the effect subscribes
/// a connection to a room that the connection does not listen to yet.
pub open spec fn takes_receiver(registry: WsState, effect: Effect) -> bool {
    match effect {
        Effect::Subscribe { connection, user_id, room_id } => !registry.holds(
            connection,
            user_id@,
            room_id@,
        ),
        _ => false,
    }
}

/// Performs what an effect asks of the registry: subscribes, unsubscribes
/// or publishes. A subscription of a connection that does not listen to the
/// room yet hands out the receiver to forward from. Effects that ask
/// something of the verifier, of the store or of the socket leave the
/// registry as it is; they are the caller's to perform.
pub fn perform(registry: &mut WsState, effect: &Effect) -> (outcome: (Option<Receiver<String>>, bool))
    ensures
        final(registry).entries() == table_after(old(registry).entries(), *effect),
        outcome.0 is Some <==> takes_receiver(*old(registry), *effect),
        outcome.1 == goes_out(*old(registry), *effect),
        match *effect {
            Effect::Subscribe { room_id, .. } => final(registry).has_topic(room_id@) && forall|
                room: Seq<char>,
            |
                old(registry).has_topic(room) ==> final(registry).has_topic(room),
            _ => final(registry).topics() == old(registry).topics(),
        },
{
    match effect {
        Effect::Subscribe { connection, user_id, room_id } => {
            let rx = registry.subscribe_user_to_server(
                *connection,
                user_id.as_str(),
                room_id.as_str(),
            );
            proof {
                let before = old(registry).topics();
                let after = registry.topics();
                assert forall|room: Seq<char>| before.contains(room) implies after.contains(
                    room,
                ) by {
                    let k = choose|k: int| 0 <= k < before.len() && before[k] == room;
                    assert(before.push(room_id@)[k] == room);
                }
            }
            (rx, false)
        },
        Effect::Unsubscribe { connection, user_id } => {
            registry.unsubscribe_user(user_id.as_str(), *connection);
            (None, false)
        },
        Effect::Publish { room_id, message } => {
            let published = registry.publish(room_id.as_str(), message);
            (None, published)
        },
        _ => (None, false),
    }
}

/// A subscription that no later teardown undoes is in the table at the end.
pub proof fn lemma_subscription_stays(entries: Seq<Entry>, effects: Seq<Effect>, at: int)
    requires
        0 <= at < effects.len(),
        effects[at] is Subscribe,
        forall|j: int| at < j < effects.len() ==> !((#[trigger] effects[j]) is Unsubscribe),
    ensures
        table_after_all(entries, effects).contains(
            (
                effects[at]->Subscribe_connection,
                effects[at]->Subscribe_user_id@,
                effects[at]->Subscribe_room_id@,
            ),
        ),
    decreases effects.len(),
{
    let entry = (
        effects[at]->Subscribe_connection,
        effects[at]->Subscribe_user_id@,
        effects[at]->Subscribe_room_id@,
    );
    let before = table_after_all(entries, effects.drop_last());
    if at == effects.len() - 1 {
        if !before.contains(entry) {
            assert(before.push(entry)[before.len() as int] == entry);
        }
    } else {
        assert(effects.drop_last()[at] == effects[at]);
        assert forall|j: int| at < j < effects.drop_last().len() implies !((
        #[trigger] effects.drop_last()[j]) is Unsubscribe) by {
            assert(effects.drop_last()[j] == effects[j]);
        }
        lemma_subscription_stays(entries, effects.drop_last(), at);
        let k = choose|k: int| 0 <= k < before.len() && before[k] == entry;
        match effects.last() {
            Effect::Subscribe { connection, user_id, room_id } => {
                if !before.contains((connection, user_id@, room_id@)) {
                    assert(before.push((connection, user_id@, room_id@))[k] == entry);
                }
            },
            _ => {},
        }
    }
}

/// The handshake subscribes to every room. Once the store has listed the
/// rooms of the user that the verifier named, performing the effects of the
/// session leaves the connection, and so the user, subscribed to each of the
/// rooms listed.
pub proof fn lemma_handshake_subscribes(
    state: SessionState,
    rows: Vec<ServerRow>,
    entries: Seq<Entry>,
    k: int,
)
    requires
        state.phase is AwaitingAuth,
        state.pending is Rooms,
        0 <= k < rows@.len(),
    ensures
        ({
            let effects = state.step(Event::Reply(StoreReply::Rooms(rows))).1;
            let table = table_after_all(entries, effects);
            &&& table.contains((state.connection, state.user_id@, rows@[k].id@))
            &&& rooms_in(table, state.user_id@).contains(rows@[k].id@)
        }),
{
    let effects = state.step(Event::Reply(StoreReply::Rooms(rows))).1;
    let rooms = crate::session::distinct_ids(rows@);
    lemma_distinct_ids(rows@);
    assert(crate::text::holds(rooms, rows@[k].id@));
    let at = choose|i: int| 0 <= i < rooms.len() && (#[trigger] rooms[i])@ == rows@[k].id@;
    assert(effects[at] == (Effect::Subscribe {
        connection: state.connection,
        user_id: state.user_id,
        room_id: rooms[at],
    }));
    assert forall|j: int| at < j < effects.len() implies !((#[trigger] effects[j]) is Unsubscribe) by {
        if j < rooms.len() {
            assert(effects[j] is Subscribe);
        }
    }
    lemma_subscription_stays(entries, effects, at);
    let table = table_after_all(entries, effects);
    let entry = (state.connection, state.user_id@, rows@[k].id@);
    let i = choose|i: int| 0 <= i < table.len() && table[i] == entry;
    assert(table[i].1 == state.user_id@ && table[i].2 == rows@[k].id@);
    assert(listens(table, state.user_id@, rows@[k].id@));
    lemma_rooms_in(table, state.user_id@);
}

/// The end of a teardown removes what the closing connection listened to
/// and nothing else: the user stays subscribed to a room exactly where
/// another connection of the user holds it, and everyone else stays
/// subscribed as before.
pub proof fn lemma_teardown_unsubscribes(state: SessionState, entries: Seq<Entry>)
    ensures
        ({
            let after = table_after_all(entries, state.finish().1);
            &&& forall|room: Seq<char>|
                !(#[trigger] after.contains((state.connection, state.user_id@, room)))
            &&& forall|room: Seq<char>|
                #[trigger] rooms_in(after, state.user_id@).contains(room) <==> listens_elsewhere(
                    entries,
                    state.connection,
                    state.user_id@,
                    room,
                )
            &&& forall|other: Seq<char>|
                other != state.user_id@ ==> rooms_in(after, other) == rooms_in(entries, other)
        }),
{
    let effects = state.finish().1;
    let first = effects.drop_last();
    let left = without(entries, state.connection, state.user_id@);
    assert(first.drop_last() =~= Seq::<Effect>::empty());
    assert(first.last() == Effect::Unsubscribe {
        connection: state.connection,
        user_id: state.user_id,
    });
    assert(table_after_all(entries, first.drop_last()) == entries);
    assert(table_after_all(entries, first) == left);
    assert(table_after_all(entries, effects) == left);
    assert forall|room: Seq<char>| !left.contains((state.connection, state.user_id@, room)) by {
        lemma_without_contains(
            entries,
            state.connection,
            state.user_id@,
            (state.connection, state.user_id@, room),
        );
    }
    assert forall|room: Seq<char>| #[trigger]
        rooms_in(left, state.user_id@).contains(room) <==> listens_elsewhere(
            entries,
            state.connection,
            state.user_id@,
            room,
        ) by {
        lemma_without_rooms(entries, state.connection, state.user_id@, room);
    }
    assert forall|other: Seq<char>| other != state.user_id@ implies rooms_in(left, other)
        == rooms_in(entries, other) by {
        lemma_without_others(entries, state.connection, state.user_id@, other);
    }
}

} // verus!
