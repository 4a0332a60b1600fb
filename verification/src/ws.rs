//! The room registry and the subscription table.
//!
//! Every room has one bounded fan-out channel, made when the room is first
//! used and kept from then on. The table records, connection by connection,
//! which rooms each connected user listens to, so that a message meant for
//! one user can be handed once to each room that reaches that user, whatever
//! the number of devices the user is connected with. The channels are
//! tokio's broadcast channels: a sender never waits for a slow receiver, and
//! a receiver that fell behind is told how many messages it missed.

use vstd::prelude::*;
use crate::text::{contains_str, holds, str_eq, views};
use crate::ws_messages::Outbound;
use tokio::sync::broadcast::{Receiver, Sender};

verus! {

/// The sending half of a tokio broadcast channel.
#[verifier::external_type_specification]
#[verifier::external_body]
#[verifier::reject_recursive_types(T)]
pub struct ExSender<T>(Sender<T>);

/// The receiving half of a tokio broadcast channel.
#[verifier::external_type_specification]
#[verifier::external_body]
#[verifier::reject_recursive_types(T)]
pub struct ExReceiver<T>(Receiver<T>);

/// How many messages a room's channel retains for its slowest receiver.
pub const TOPIC_CAPACITY: usize = 256;

/// Makes a channel with `tokio::sync::broadcast::channel` and keeps its
/// sending half; the receiver made along with it is dropped at once, so the
/// channel starts without receivers. tokio panics on a capacity of zero or
/// above `usize::MAX / 2`: the bounds leave those out.
#[verifier::external_body]
fn open_channel(capacity: usize) -> Sender<String>
    requires
        0 < capacity <= usize::MAX / 2,
{
    tokio::sync::broadcast::channel(capacity).0
}

/// Hands `message` to `Sender::send`. The call does not wait for receivers;
/// with none subscribed the message is dropped. Nothing is promised of who
/// will see the message, so no result is handed on.
#[verifier::external_body]
fn send_on(tx: &Sender<String>, message: String) {
    let _ = tx.send(message);
}

/// A new receiver from `Sender::subscribe`: it sees what is sent after this
/// call. The receiver is opaque here. tokio panics once a channel has
/// `usize::MAX / 4` receivers, more than any memory holds.
#[verifier::external_body]
fn subscribe_to(tx: &Sender<String>) -> Receiver<String> {
    tx.subscribe()
}

/// Another handle on the same channel, from `Sender::clone`.
#[verifier::external_body]
fn clone_sender(tx: &Sender<String>) -> Sender<String> {
    tx.clone()
}

/// A room with its channel.
pub struct Topic {
    room: String,
    tx: Sender<String>,
}

/// One entry of the subscription table: through `connection`, `user`
/// listens to `room`.
pub struct SubscriptionEntry {
    connection: u64,
    user: String,
    room: String,
}

/// An entry of the subscription table as a value: the connection, the user
/// and the room.
pub type Entry = (u64, Seq<char>, Seq<char>);

/// The rooms that `user` listens to through any connection, each once, in
/// the order of their first entry.
pub open spec fn rooms_in(entries: Seq<Entry>, user: Seq<char>) -> Seq<Seq<char>>
    decreases entries.len(),
{
    if entries.len() == 0 {
        Seq::empty()
    } else {
        let before = rooms_in(entries.drop_last(), user);
        if entries.last().1 == user && !before.contains(entries.last().2) {
            before.push(entries.last().2)
        } else {
            before
        }
    }
}

/// Whether `user` listens to `room` through some entry.
pub open spec fn listens(entries: Seq<Entry>, user: Seq<char>, room: Seq<char>) -> bool {
    exists|i: int| 0 <= i < entries.len() && (#[trigger] entries[i]).1 == user && entries[i].2 == room
}

/// Whether `user` listens to `room` through a connection other than
/// `connection`.
pub open spec fn listens_elsewhere(
    entries: Seq<Entry>,
    connection: u64,
    user: Seq<char>,
    room: Seq<char>,
) -> bool {
    exists|i: int|
        0 <= i < entries.len() && (#[trigger] entries[i]).0 != connection && entries[i].1 == user
            && entries[i].2 == room
}

/// Adding what is not there yet to a sequence without repetition gives a
/// sequence without repetition.
pub proof fn lemma_push_distinct<T>(items: Seq<T>, item: T)
    requires
        items.no_duplicates(),
        !items.contains(item),
    ensures
        items.push(item).no_duplicates(),
{
    let all = items.push(item);
    assert forall|i: int, j: int| 0 <= i < all.len() && 0 <= j < all.len() && i != j implies all[i]
        != all[j] by {
        if i == items.len() {
            if items[j] == item {
                assert(items.contains(item));
            }
        } else if j == items.len() {
            if items[i] == item {
                assert(items.contains(item));
            }
        }
    }
}

/// The rooms of a user are the rooms of the user's entries, and none of
/// them is listed twice.
pub proof fn lemma_rooms_in(entries: Seq<Entry>, user: Seq<char>)
    ensures
        rooms_in(entries, user).no_duplicates(),
        forall|room: Seq<char>|
            #[trigger] rooms_in(entries, user).contains(room) <==> listens(entries, user, room),
    decreases entries.len(),
{
    if entries.len() == 0 {
        assert forall|room: Seq<char>| !listens(entries, user, room) by {}
    } else {
        let front = entries.drop_last();
        let last = entries.last();
        let before = rooms_in(front, user);
        lemma_rooms_in(front, user);
        let after = rooms_in(entries, user);
        if last.1 == user && !before.contains(last.2) {
            lemma_push_distinct(before, last.2);
        }
        assert forall|room: Seq<char>| #[trigger] after.contains(room) <==> listens(
            entries,
            user,
            room,
        ) by {
            if after.contains(room) {
                let k = choose|k: int| 0 <= k < after.len() && after[k] == room;
                if k < before.len() {
                    assert(before[k] == room);
                    assert(before.contains(room));
                    let i = choose|i: int|
                        0 <= i < front.len() && (#[trigger] front[i]).1 == user && front[i].2
                            == room;
                    assert(entries[i] == front[i]);
                } else {
                    assert(entries[entries.len() - 1].1 == user);
                }
            }
            if listens(entries, user, room) {
                let i = choose|i: int|
                    0 <= i < entries.len() && (#[trigger] entries[i]).1 == user && entries[i].2
                        == room;
                if i < front.len() {
                    assert(front[i] == entries[i]);
                    assert(listens(front, user, room));
                    assert(before.contains(room));
                    let k = choose|k: int| 0 <= k < before.len() && before[k] == room;
                    assert(after[k] == room);
                } else {
                    if before.contains(room) {
                        let k = choose|k: int| 0 <= k < before.len() && before[k] == room;
                        assert(after[k] == room);
                    } else {
                        assert(after[before.len() as int] == room);
                    }
                }
            }
        }
    }
}

/// The table once `entry` is recorded: it is added unless it is there.
pub open spec fn with_entry(entries: Seq<Entry>, entry: Entry) -> Seq<Entry> {
    if entries.contains(entry) {
        entries
    } else {
        entries.push(entry)
    }
}

/// Idempotent subscription, on the side of the table. Subscribing a
/// connection to a room a second time changes nothing, and after any number
/// of times the room is listed for the user exactly once.
pub proof fn lemma_subscribe_twice(entries: Seq<Entry>, entry: Entry)
    requires
        entries.no_duplicates(),
    ensures
        with_entry(with_entry(entries, entry), entry) == with_entry(entries, entry),
        with_entry(entries, entry).no_duplicates(),
        ({
            let rooms = rooms_in(with_entry(entries, entry), entry.1);
            exists|k: int|
                0 <= k < rooms.len() && #[trigger] rooms[k] == entry.2 && forall|j: int|
                    0 <= j < rooms.len() && #[trigger] rooms[j] == entry.2 ==> j == k
        }),
{
    let once = with_entry(entries, entry);
    if !entries.contains(entry) {
        assert(once[entries.len() as int] == entry);
        lemma_push_distinct(entries, entry);
    }
    let at = choose|i: int| 0 <= i < once.len() && once[i] == entry;
    assert(once[at].1 == entry.1 && once[at].2 == entry.2);
    assert(listens(once, entry.1, entry.2));
    lemma_rooms_in(once, entry.1);
    let rooms = rooms_in(once, entry.1);
    assert(rooms.contains(entry.2));
    let k = choose|k: int| 0 <= k < rooms.len() && rooms[k] == entry.2;
    assert(rooms[k] == entry.2);
}

/// Whether an entry belongs to `connection` of `user`.
pub open spec fn belongs(entry: Entry, connection: u64, user: Seq<char>) -> bool {
    entry.0 == connection && entry.1 == user
}

/// The entries that are left when those of one connection of a user are
/// taken out.
pub open spec fn without(entries: Seq<Entry>, connection: u64, user: Seq<char>) -> Seq<Entry>
    decreases entries.len(),
{
    if entries.len() == 0 {
        Seq::empty()
    } else {
        let before = without(entries.drop_last(), connection, user);
        if belongs(entries.last(), connection, user) {
            before
        } else {
            before.push(entries.last())
        }
    }
}

/// What is left without a connection is what was there and belongs to
/// another connection.
pub proof fn lemma_without_contains(
    entries: Seq<Entry>,
    connection: u64,
    user: Seq<char>,
    entry: Entry,
)
    ensures
        without(entries, connection, user).contains(entry) <==> entries.contains(entry) && !belongs(
            entry,
            connection,
            user,
        ),
    decreases entries.len(),
{
    if entries.len() > 0 {
        let front = entries.drop_last();
        let last = entries.last();
        let before = without(front, connection, user);
        let left = without(entries, connection, user);
        lemma_without_contains(front, connection, user, entry);
        if left.contains(entry) {
            let k = choose|k: int| 0 <= k < left.len() && left[k] == entry;
            if !belongs(last, connection, user) && k == before.len() {
                assert(entries[entries.len() - 1] == entry);
            } else {
                assert(before[k] == entry);
                assert(before.contains(entry));
                let i = choose|i: int| 0 <= i < front.len() && front[i] == entry;
                assert(entries[i] == entry);
            }
        }
        if entries.contains(entry) && !belongs(entry, connection, user) {
            let i = choose|i: int| 0 <= i < entries.len() && entries[i] == entry;
            if i < front.len() {
                assert(front[i] == entry);
                assert(front.contains(entry));
                let k = choose|k: int| 0 <= k < before.len() && before[k] == entry;
                assert(left[k] == entry);
            } else {
                assert(left[before.len() as int] == entry);
            }
        }
    }
}

/// Taking out a connection makes no entry occur twice.
pub proof fn lemma_without_distinct(entries: Seq<Entry>, connection: u64, user: Seq<char>)
    requires
        entries.no_duplicates(),
    ensures
        without(entries, connection, user).no_duplicates(),
    decreases entries.len(),
{
    if entries.len() > 0 {
        let front = entries.drop_last();
        let last = entries.last();
        assert(front.no_duplicates());
        lemma_without_distinct(front, connection, user);
        if !belongs(last, connection, user) {
            let left = without(front, connection, user);
            lemma_without_contains(front, connection, user, last);
            if front.contains(last) {
                let i = choose|i: int| 0 <= i < front.len() && front[i] == last;
                assert(entries[i] == entries[entries.len() - 1]);
            }
            lemma_push_distinct(left, last);
        }
    }
}

/// Taking out one connection of a user leaves everyone else with the rooms
/// they had, in the order they had them.
pub proof fn lemma_without_others(
    entries: Seq<Entry>,
    connection: u64,
    user: Seq<char>,
    other: Seq<char>,
)
    requires
        other != user,
    ensures
        rooms_in(without(entries, connection, user), other) == rooms_in(entries, other),
    decreases entries.len(),
{
    if entries.len() > 0 {
        let front = entries.drop_last();
        let last = entries.last();
        lemma_without_others(front, connection, user, other);
        if !belongs(last, connection, user) {
            let left = without(entries, connection, user);
            assert(left.drop_last() =~= without(front, connection, user));
            assert(left.last() == last);
        }
    }
}

/// Taking out one connection of a user leaves the user with the rooms that
/// another connection of the user holds, and with no other.
pub proof fn lemma_without_rooms(
    entries: Seq<Entry>,
    connection: u64,
    user: Seq<char>,
    room: Seq<char>,
)
    ensures
        rooms_in(without(entries, connection, user), user).contains(room) <==> listens_elsewhere(
            entries,
            connection,
            user,
            room,
        ),
{
    let left = without(entries, connection, user);
    lemma_rooms_in(left, user);
    if listens(left, user, room) {
        let i = choose|i: int| 0 <= i < left.len() && (#[trigger] left[i]).1 == user && left[i].2 == room;
        assert(left.contains(left[i]));
        lemma_without_contains(entries, connection, user, left[i]);
        let k = choose|k: int| 0 <= k < entries.len() && entries[k] == left[i];
        assert(entries[k].0 != connection);
    }
    if listens_elsewhere(entries, connection, user, room) {
        let k = choose|k: int|
            0 <= k < entries.len() && (#[trigger] entries[k]).0 != connection && entries[k].1
                == user && entries[k].2 == room;
        assert(entries.contains(entries[k]));
        lemma_without_contains(entries, connection, user, entries[k]);
        let i = choose|i: int| 0 <= i < left.len() && left[i] == entries[k];
        assert(left[i].1 == user && left[i].2 == room);
    }
}

/// The registry of rooms and the subscription table, as one value. Whoever
/// shares it between connections puts it behind a lock.
pub struct WsState {
    /// One channel per room, in the order the rooms were first used.
    server_channels: Vec<Topic>,
    /// Which connection of which user listens to which room, in the order
    /// recorded.
    user_servers: Vec<SubscriptionEntry>,
}

impl WsState {
    /// The rooms that have a channel, in the order they were first used.
    pub closed spec fn topics(&self) -> Seq<Seq<char>> {
        self.server_channels@.map_values(|t: Topic| t.room@)
    }

    /// The entries of the subscription table.
    pub closed spec fn entries(&self) -> Seq<Entry> {
        self.user_servers@.map_values(|e: SubscriptionEntry| (e.connection, e.user@, e.room@))
    }

    /// Whether `room` has a channel.
    pub open spec fn has_topic(&self, room: Seq<char>) -> bool {
        self.topics().contains(room)
    }

    /// The rooms that `user` listens to through any connection, each once,
    /// in the order first subscribed.
    pub open spec fn rooms_of(&self, user: Seq<char>) -> Seq<Seq<char>> {
        rooms_in(self.entries(), user)
    }

    /// Whether `user` listens to `room` through some connection.
    pub open spec fn is_subscribed(&self, user: Seq<char>, room: Seq<char>) -> bool {
        self.rooms_of(user).contains(room)
    }

    /// Whether `connection` of `user` listens to `room`.
    pub open spec fn holds(&self, connection: u64, user: Seq<char>, room: Seq<char>) -> bool {
        self.entries().contains((connection, user, room))
    }

    /// No room has two channels, no subscription is recorded twice, and
    /// every room that someone listens to has its channel.
    #[verifier::type_invariant]
    pub closed spec fn wf(&self) -> bool {
        &&& self.topics().no_duplicates()
        &&& self.entries().no_duplicates()
        &&& forall|i: int|
            0 <= i < self.entries().len() ==> self.has_topic((#[trigger] self.entries()[i]).2)
    }

    /// A registry without rooms and without subscriptions.
    pub fn new() -> (state: WsState)
        ensures
            state.topics() == Seq::<Seq<char>>::empty(),
            state.entries() == Seq::<Entry>::empty(),
    {
        let state = WsState { server_channels: Vec::new(), user_servers: Vec::new() };
        assert(state.topics() =~= Seq::<Seq<char>>::empty());
        assert(state.entries() =~= Seq::<Entry>::empty());
        state
    }

    /// Where the channel of `server_id` stands in the registry.
    fn find_topic(&self, server_id: &str) -> (r: Option<usize>)
        ensures
            match r {
                Some(i) => i < self.topics().len() && self.topics()[i as int] == server_id@,
                None => !self.has_topic(server_id@),
            },
    {
        let mut i: usize = 0;
        while i < self.server_channels.len()
            invariant
                i <= self.server_channels.len(),
                self.topics().len() == self.server_channels.len(),
                forall|j: int| 0 <= j < i ==> self.topics()[j] != server_id@,
            decreases self.server_channels.len() - i,
        {
            if str_eq(self.server_channels[i].room.as_str(), server_id) {
                return Some(i);
            }
            i += 1;
        }
        None
    }

    /// Tells whether `connection` of `user_id` listens to `server_id`.
    pub fn holding(&self, connection: u64, user_id: &str, server_id: &str) -> (r: bool)
        ensures
            r == self.holds(connection, user_id@, server_id@),
    {
        let mut i: usize = 0;
        while i < self.user_servers.len()
            invariant
                i <= self.user_servers.len(),
                self.entries().len() == self.user_servers.len(),
                forall|j: int| 0 <= j < i ==> self.entries()[j] != (connection, user_id@, server_id@),
            decreases self.user_servers.len() - i,
        {
            if self.user_servers[i].connection == connection && str_eq(
                self.user_servers[i].user.as_str(),
                user_id,
            ) && str_eq(self.user_servers[i].room.as_str(), server_id) {
                assert(self.entries()[i as int] == (connection, user_id@, server_id@));
                return true;
            }
            i += 1;
        }
        false
    }

    /// Tells whether `user_id` listens to `server_id` through any connection.
    pub fn subscribed(&self, user_id: &str, server_id: &str) -> (r: bool)
        ensures
            r == self.is_subscribed(user_id@, server_id@),
    {
        let mut i: usize = 0;
        while i < self.user_servers.len()
            invariant
                i <= self.user_servers.len(),
                self.entries().len() == self.user_servers.len(),
                forall|j: int|
                    0 <= j < i ==> !((#[trigger] self.entries()[j]).1 == user_id@
                        && self.entries()[j].2 == server_id@),
            decreases self.user_servers.len() - i,
        {
            if str_eq(self.user_servers[i].user.as_str(), user_id) && str_eq(
                self.user_servers[i].room.as_str(),
                server_id,
            ) {
                assert(self.entries()[i as int].1 == user_id@ && self.entries()[i as int].2
                    == server_id@);
                assert(listens(self.entries(), user_id@, server_id@));
                proof {
                    lemma_rooms_in(self.entries(), user_id@);
                }
                return true;
            }
            i += 1;
        }
        proof {
            lemma_rooms_in(self.entries(), user_id@);
        }
        false
    }

    /// Tells whether `server_id` has a channel.
    pub fn has_channel(&self, server_id: &str) -> (r: bool)
        ensures
            r == self.has_topic(server_id@),
    {
        self.find_topic(server_id).is_some()
    }

    /// Puts the channel of a room that has none yet into the registry.
    fn add_topic(&mut self, room: String, tx: Sender<String>)
        requires
            !old(self).has_topic(room@),
        ensures
            final(self).topics() == old(self).topics().push(room@),
            final(self).entries() == old(self).entries(),
    {
        proof {
            use_type_invariant(&*self);
        }
        let mut held = WsState::new();
        core::mem::swap(self, &mut held);
        let WsState { server_channels: mut channels, user_servers: entries } = held;
        channels.push(Topic { room, tx });
        proof {
            let next = WsState { server_channels: channels, user_servers: entries };
            let topics = old(self).topics();
            assert(next.topics() =~= topics.push(room@));
            assert(next.entries() =~= old(self).entries());
            lemma_push_distinct(topics, room@);
            assert forall|i: int| 0 <= i < next.entries().len() implies next.has_topic(
                (#[trigger] next.entries()[i]).2,
            ) by {
                let listened = old(self).entries()[i].2;
                assert(old(self).has_topic(listened));
                let k = choose|k: int| 0 <= k < topics.len() && topics[k] == listened;
                assert(topics.push(room@)[k] == listened);
            }
        }
        *self = WsState { server_channels: channels, user_servers: entries };
    }

    /// Puts a subscription that is not recorded yet into the table.
    fn add_entry(&mut self, connection: u64, user: String, room: String)
        requires
            old(self).has_topic(room@),
            !old(self).entries().contains((connection, user@, room@)),
        ensures
            final(self).topics() == old(self).topics(),
            final(self).entries() == old(self).entries().push((connection, user@, room@)),
    {
        proof {
            use_type_invariant(&*self);
        }
        let mut held = WsState::new();
        core::mem::swap(self, &mut held);
        let WsState { server_channels: channels, user_servers: mut entries } = held;
        entries.push(SubscriptionEntry { connection, user, room });
        proof {
            let next = WsState { server_channels: channels, user_servers: entries };
            let before = old(self).entries();
            assert(next.entries() =~= before.push((connection, user@, room@)));
            assert(next.topics() =~= old(self).topics());
            lemma_push_distinct(before, (connection, user@, room@));
            assert forall|i: int| 0 <= i < next.entries().len() implies next.has_topic(
                (#[trigger] next.entries()[i]).2,
            ) by {
                if i < before.len() {
                    assert(old(self).has_topic(before[i].2));
                }
            }
        }
        *self = WsState { server_channels: channels, user_servers: entries };
    }

    /// The channel of a room, made now if the room had none. Asking again
    /// for the same room gives a handle on the same channel: the registry
    /// never holds two channels for one room.
    pub fn get_or_create_server_channel(&mut self, server_id: &str) -> (tx: Sender<String>)
        ensures
            final(self).topics() == if old(self).has_topic(server_id@) {
                old(self).topics()
            } else {
                old(self).topics().push(server_id@)
            },
            final(self).has_topic(server_id@),
            final(self).entries() == old(self).entries(),
    {
        match self.find_topic(server_id) {
            Some(i) => clone_sender(&self.server_channels[i].tx),
            None => {
                let tx = open_channel(TOPIC_CAPACITY);
                let handle = clone_sender(&tx);
                self.add_topic(String::from_str(server_id), tx);
                assert(final(self).topics().last() == server_id@);
                handle
            },
        }
    }

    /// Publishes `message` to the room `server_id`, without ever waiting for
    /// its listeners. A room without a channel has nobody listening: the
    /// message is dropped. The result tells whether the room had a channel.
    pub fn broadcast_to_server(&self, server_id: &str, message: &str) -> (published: bool)
        ensures
            published == self.has_topic(server_id@),
    {
        match self.find_topic(server_id) {
            Some(i) => {
                send_on(&self.server_channels[i].tx, String::from_str(message));
                true
            },
            None => false,
        }
    }

    /// Publishes an outbound message to the room `server_id` as one frame. A
    /// message of which no frame can be made (it reports on a record with a
    /// malformed id) is dropped, as is any message for a room without a
    /// channel. The result tells whether the frame went out.
    pub fn publish(&self, server_id: &str, message: &Outbound) -> (published: bool)
        ensures
            published == (message.wire() is Some && self.has_topic(server_id@)),
    {
        match message.to_text() {
            Some(frame) => self.broadcast_to_server(server_id, frame.as_str()),
            None => false,
        }
    }

    /// Subscribes `connection` of `user_id` to the room `server_id`. The
    /// room's channel is made if the room has none. A connection that does
    /// not listen to the room yet is recorded and handed a receiver that
    /// sees what is published from now on. A connection that listens to the
    /// room already keeps the receiver it has: nothing is recorded and no
    /// second receiver is made.
    pub fn subscribe_user_to_server(
        &mut self,
        connection: u64,
        user_id: &str,
        server_id: &str,
    ) -> (rx: Option<Receiver<String>>)
        ensures
            final(self).topics() == if old(self).has_topic(server_id@) {
                old(self).topics()
            } else {
                old(self).topics().push(server_id@)
            },
            final(self).has_topic(server_id@),
            final(self).entries() == with_entry(
                old(self).entries(),
                (connection, user_id@, server_id@),
            ),
            rx is Some <==> !old(self).holds(connection, user_id@, server_id@),
            final(self).holds(connection, user_id@, server_id@),
            final(self).is_subscribed(user_id@, server_id@),
            final(self).rooms_of(user_id@) == if old(self).is_subscribed(user_id@, server_id@) {
                old(self).rooms_of(user_id@)
            } else {
                old(self).rooms_of(user_id@).push(server_id@)
            },
            final(self).rooms_of(user_id@).no_duplicates(),
            forall|other: Seq<char>|
                other != user_id@ ==> final(self).rooms_of(other) == old(self).rooms_of(other),
    {
        let tx = self.get_or_create_server_channel(server_id);
        let ghost before = self.entries();
        let ghost entry = (connection, user_id@, server_id@);
        if self.holding(connection, user_id, server_id) {
            proof {
                lemma_rooms_in(before, user_id@);
                let at = choose|i: int| 0 <= i < before.len() && before[i] == entry;
                assert(before[at].1 == user_id@ && before[at].2 == server_id@);
                assert(listens(before, user_id@, server_id@));
            }
            None
        } else {
            let rx = subscribe_to(&tx);
            self.add_entry(connection, String::from_str(user_id), String::from_str(server_id));
            proof {
                let after = self.entries();
                assert(after.drop_last() =~= before);
                assert(after.last() == entry);
                assert(after[after.len() - 1] == entry);
                assert(listens(after, user_id@, server_id@));
                lemma_rooms_in(after, user_id@);
                assert forall|other: Seq<char>| other != user_id@ implies rooms_in(after, other)
                    == rooms_in(before, other) by {}
            }
            Some(rx)
        }
    }

    /// Forgets what `connection` of `user_id` listens to: the teardown of
    /// one connection. What the user listens to through other connections
    /// stays, and the rooms keep their channels. A room stays listed for the
    /// user exactly where another connection of the user holds it.
    pub fn unsubscribe_user(&mut self, user_id: &str, connection: u64)
        ensures
            final(self).topics() == old(self).topics(),
            final(self).entries() == without(old(self).entries(), connection, user_id@),
            forall|room: Seq<char>| !(#[trigger] final(self).holds(connection, user_id@, room)),
            forall|room: Seq<char>|
                #[trigger] final(self).is_subscribed(user_id@, room) <==> listens_elsewhere(
                    old(self).entries(),
                    connection,
                    user_id@,
                    room,
                ),
            forall|other: Seq<char>|
                other != user_id@ ==> final(self).rooms_of(other) == old(self).rooms_of(other),
    {
        proof {
            use_type_invariant(&*self);
        }
        let ghost all = self.entries();
        let mut kept: Vec<SubscriptionEntry> = Vec::new();
        let mut i: usize = 0;
        assert(all.take(0) =~= Seq::empty());
        while i < self.user_servers.len()
            invariant
                *self == *old(self),
                all == self.entries(),
                all.len() == self.user_servers.len(),
                i <= self.user_servers.len(),
                kept@.map_values(|e: SubscriptionEntry| (e.connection, e.user@, e.room@))
                    =~= without(all.take(i as int), connection, user_id@),
            decreases self.user_servers.len() - i,
        {
            proof {
                assert(all.take(i as int + 1).drop_last() =~= all.take(i as int));
                assert(all.take(i as int + 1).last() == all[i as int]);
            }
            let theirs = self.user_servers[i].connection == connection && str_eq(
                self.user_servers[i].user.as_str(),
                user_id,
            );
            if !theirs {
                kept.push(
                    SubscriptionEntry {
                        connection: self.user_servers[i].connection,
                        user: self.user_servers[i].user.clone(),
                        room: self.user_servers[i].room.clone(),
                    },
                );
            }
            i += 1;
        }
        proof {
            let next = WsState { server_channels: self.server_channels, user_servers: kept };
            let left = without(all, connection, user_id@);
            assert(all.take(all.len() as int) =~= all);
            assert(next.entries() =~= left);
            assert(next.topics() =~= old(self).topics());
            lemma_without_distinct(all, connection, user_id@);
            assert forall|i: int| 0 <= i < left.len() implies next.has_topic(
                (#[trigger] left[i]).2,
            ) by {
                assert(left.contains(left[i]));
                lemma_without_contains(all, connection, user_id@, left[i]);
                let k = choose|k: int| 0 <= k < all.len() && all[k] == left[i];
                assert(old(self).has_topic(old(self).entries()[k].2));
            }
            assert forall|room: Seq<char>| !left.contains((connection, user_id@, room)) by {
                lemma_without_contains(all, connection, user_id@, (connection, user_id@, room));
            }
            assert forall|room: Seq<char>| #[trigger]
                rooms_in(left, user_id@).contains(room) <==> listens_elsewhere(
                    all,
                    connection,
                    user_id@,
                    room,
                ) by {
                lemma_without_rooms(all, connection, user_id@, room);
            }
            assert forall|other: Seq<char>| other != user_id@ implies rooms_in(left, other)
                == rooms_in(all, other) by {
                lemma_without_others(all, connection, user_id@, other);
            }
        }
        self.user_servers = kept;
    }

    /// Publishes `message` once to every room that `user_id` listens to,
    /// through however many connections, in the order first subscribed. The
    /// result counts those rooms. A user who listens to no room is not
    /// reached.
    pub fn broadcast_to_user(&self, user_id: &str, message: &str) -> (published: usize)
        ensures
            published == self.rooms_of(user_id@).len(),
    {
        proof {
            use_type_invariant(self);
        }
        let ghost all = self.entries();
        let mut reached: Vec<String> = Vec::new();
        let mut i: usize = 0;
        assert(all.take(0) =~= Seq::empty());
        while i < self.user_servers.len()
            invariant
                self.wf(),
                all == self.entries(),
                all.len() == self.user_servers.len(),
                i <= self.user_servers.len(),
                views(reached@) =~= rooms_in(all.take(i as int), user_id@),
                reached@.len() <= i,
            decreases self.user_servers.len() - i,
        {
            proof {
                assert(all.take(i as int + 1).drop_last() =~= all.take(i as int));
                assert(all.take(i as int + 1).last() == all[i as int]);
            }
            if str_eq(self.user_servers[i].user.as_str(), user_id) {
                let room = &self.user_servers[i].room;
                let before = contains_str(&reached, room.as_str());
                proof {
                    let listed = rooms_in(all.take(i as int), user_id@);
                    if holds(reached@, room@) {
                        let k = choose|k: int| 0 <= k < reached@.len() && (#[trigger] reached@[k])@ == room@;
                        assert(listed[k] == room@);
                    }
                    if listed.contains(room@) {
                        let k = choose|k: int| 0 <= k < listed.len() && listed[k] == room@;
                        assert(reached@[k]@ == room@);
                    }
                }
                if !before {
                    assert(self.has_topic(self.entries()[i as int].2));
                    let delivered = self.broadcast_to_server(room.as_str(), message);
                    assert(delivered);
                    reached.push(room.clone());
                }
            }
            i += 1;
        }
        assert(all.take(all.len() as int) =~= all);
        reached.len()
    }
}

} // verus!
