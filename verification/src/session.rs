//! One connection's protocol state machine.
//!
//! A session never waits and never calls out. It is handed one event at a
//! time (a frame from the client, the verifier's verdict, an answer of the
//! store, the loss of the socket) and answers with the effects to perform,
//! in order. Whoever drives it performs them: it asks the verifier or the
//! store and hands the answer back as the next event, subscribes and
//! publishes through the registry, writes to the socket, closes it.
//!
//! What a session does is the function `step`; the session itself is proved
//! to follow it.

use vstd::prelude::*;
use crate::db::{MessageRow, ServerRow, UserRow, VoiceStateRow};
use crate::ids::Uuid;
use crate::text::{holds, str_eq};
use crate::ws_messages::{Inbound, Outbound, WsSignalIce, WsSignalSdp};

verus! {

/// What a session asks of the store.
#[derive(Debug, Clone, PartialEq, Eq)]
pub enum StoreRequest {
    /// The rooms that the user is a member of.
    RoomsForUser { user_id: String },
    /// Store a new message and hand it back as stored.
    CreateMessage { channel_id: String, author_id: String, content: String },
    /// The room that the channel belongs to.
    RoomForChannel { channel_id: String },
    /// Record that the user occupies the voice channel.
    JoinVoice { user_id: String, channel_id: String },
    /// Clear the user's voice presence and report the channel vacated.
    LeaveVoice { user_id: String },
    /// Set the user's mute and deafen flags.
    UpdateVoiceState { user_id: String, muted: bool, deafened: bool },
    /// Everyone who occupies the voice channel.
    VoiceOccupants { channel_id: String },
    /// The voice channel that the user occupies.
    UserVoiceChannel { user_id: String },
    /// The user's public profile.
    UserProfile { user_id: String },
}

/// What the store answers.
#[derive(Debug, Clone, PartialEq, Eq)]
pub enum StoreReply {
    Rooms(Vec<ServerRow>),
    Message(MessageRow),
    Room(Option<String>),
    /// The voice channel vacated, if the user occupied one.
    Left(Option<String>),
    Occupants(Vec<VoiceStateRow>),
    VoiceChannel(Option<String>),
    Profile(Option<UserRow>),
    /// A change was made and there is nothing to report.
    Done,
    /// The store failed.
    Failed,
}

/// What happens to a session.
#[derive(Debug, Clone, PartialEq, Eq)]
pub enum Event {
    /// The client sent a text frame.
    Frame(String),
    /// The verifier judged the token: the user it is bound to, or `None`.
    Verdict(Option<String>),
    /// The store answered the last query.
    Reply(StoreReply),
    /// The socket is gone: closed by the peer, or a write failed.
    Hangup,
}

/// What a session wants done, in the order given.
#[derive(Debug, Clone, PartialEq, Eq)]
pub enum Effect {
    /// Ask the verifier about the token; its verdict is the next event.
    Verify { token: String },
    /// Ask the store; its answer is the next event.
    Query(StoreRequest),
    /// Subscribe this connection of the user to the room and forward what
    /// the room publishes.
    Subscribe { connection: u64, user_id: String, room_id: String },
    /// Remove the subscriptions of this connection of the user from the
    /// table; what other connections of the user hold stays.
    Unsubscribe { connection: u64, user_id: String },
    /// Publish the message to everyone who listens to the room.
    Publish { room_id: String, message: Outbound },
    /// Write the message to this connection's socket.
    Send(Outbound),
    /// Close the socket and stop reading and writing.
    Close,
}

/// Where a connection stands in its life.
#[derive(Debug, Clone, Copy, PartialEq, Eq, Structural)]
pub enum Phase {
    /// The socket is open and nobody is bound to it yet.
    AwaitingAuth,
    Authenticated,
    /// The socket is gone and the user's presence is being cleared.
    Closing,
    Closed,
}

/// What is left to do once the occupants of a vacated or entered voice
/// channel have been announced.
#[derive(Debug, Clone, PartialEq, Eq)]
pub enum After {
    /// Nothing: the session is idle again.
    Rest,
    /// Enter the voice channel.
    Join { channel_id: String },
    /// Finish the teardown.
    Teardown,
}

/// A call-setup payload on its way to the sender's voice channel.
#[derive(Debug, Clone, PartialEq, Eq)]
pub enum Relay {
    Sdp(WsSignalSdp),
    Ice(WsSignalIce),
}

impl Relay {
    /// The outbound message that passes this payload on from `from_user_id`.
    pub open spec fn outbound(self, from_user_id: String) -> Outbound {
        match self {
            Relay::Sdp(signal) => Outbound::SignalSdp { from_user_id, signal },
            Relay::Ice(signal) => Outbound::SignalIce { from_user_id, signal },
        }
    }

    /// Makes the outbound message that passes this payload on.
    pub fn into_outbound(self, from_user_id: String) -> (r: Outbound)
        ensures
            r == self.outbound(from_user_id),
    {
        match self {
            Relay::Sdp(signal) => Outbound::SignalSdp { from_user_id, signal },
            Relay::Ice(signal) => Outbound::SignalIce { from_user_id, signal },
        }
    }
}

/// The answer that a session waits for, with what it needs to go on.
#[derive(Debug, Clone, PartialEq, Eq)]
pub enum Pending {
    /// Nothing is awaited.
    Idle,
    /// Handshake: the verifier's verdict.
    Verdict,
    /// Handshake: the user's rooms.
    Rooms,
    /// `send_message`: the message as stored.
    MessageStored { channel_id: String },
    /// `send_message`: the room of the message's channel.
    MessageRoom { record: MessageRow },
    /// `typing`: the room of the channel.
    TypingRoom { channel_id: Uuid },
    /// `typing`: the sender's profile.
    TypingProfile { channel_id: Uuid, room_id: String },
    /// `join_voice`: the voice channel that the user occupies now.
    CurrentVoice { target: String },
    /// The channel vacated by `LeaveVoice`.
    Vacating { then: After },
    /// The occupants of a voice channel to announce.
    Occupants { channel_id: String, then: After },
    /// The room of the voice channel to announce.
    OccupantsRoom { channel_id: String, occupants: Vec<VoiceStateRow>, then: After },
    /// `join_voice`: the store's word that the user occupies the channel.
    Joining { channel_id: String },
    /// `voice_mute_deafen`: the store's word that the flags are set.
    FlagsStored,
    /// `voice_mute_deafen`: the voice channel that the user occupies.
    FlagsChannel,
    /// A relay: the sender's voice channel.
    RelayChannel { relay: Relay },
    /// A relay: the room of the sender's voice channel.
    RelayRoom { relay: Relay },
}

/// A session as a value: what `Session` stands for.
pub struct SessionState {
    /// What tells this connection from every other, of the same user too.
    pub connection: u64,
    pub phase: Phase,
    /// The user bound to the connection; empty until the verifier names one.
    pub user_id: String,
    /// The rooms this connection is subscribed to, each once.
    pub rooms: Seq<String>,
    pub pending: Pending,
}

/// The ids of the rooms in `rows`, each once, in the order of their first
/// occurrence.
pub open spec fn distinct_ids(rows: Seq<ServerRow>) -> Seq<String>
    decreases rows.len(),
{
    if rows.len() == 0 {
        Seq::empty()
    } else {
        let before = distinct_ids(rows.drop_last());
        if holds(before, rows.last().id@) {
            before
        } else {
            before.push(rows.last().id)
        }
    }
}

/// One subscription of `connection` of `user_id` for each of `rooms`, in
/// order.
pub open spec fn subscriptions(connection: u64, user_id: String, rooms: Seq<String>) -> Seq<
    Effect,
> {
    Seq::new(rooms.len(), |i: int| Effect::Subscribe { connection, user_id, room_id: rooms[i] })
}

impl SessionState {
    /// The state of a connection whose socket has just opened.
    pub open spec fn opened(connection: u64, user_id: String) -> SessionState {
        SessionState {
            connection,
            phase: Phase::AwaitingAuth,
            user_id,
            rooms: Seq::empty(),
            pending: Pending::Idle,
        }
    }

    /// This state with another answer awaited.
    pub open spec fn awaiting(self, pending: Pending) -> SessionState {
        SessionState { pending, ..self }
    }

    /// This state, closed for good.
    pub open spec fn closed(self) -> SessionState {
        SessionState {
            connection: self.connection,
            phase: Phase::Closed,
            user_id: self.user_id,
            rooms: Seq::empty(),
            pending: Pending::Idle,
        }
    }

    /// The end of a teardown: what this connection is subscribed to goes, the
    /// socket closes.
    pub open spec fn finish(self) -> (SessionState, Seq<Effect>) {
        (
            self.closed(),
            seq![
                Effect::Unsubscribe { connection: self.connection, user_id: self.user_id },
                Effect::Close,
            ],
        )
    }

    /// What follows once a flow has nothing more to announce. A session that
    /// is closing finishes its teardown whatever was planned.
    pub open spec fn settle(self, then: After) -> (SessionState, Seq<Effect>) {
        if self.phase is Closing {
            self.finish()
        } else {
            match then {
                After::Rest => (self.awaiting(Pending::Idle), Seq::empty()),
                After::Join { channel_id } => (
                    self.awaiting(Pending::Joining { channel_id }),
                    seq![
                        Effect::Query(StoreRequest::JoinVoice { user_id: self.user_id, channel_id }),
                    ],
                ),
                After::Teardown => self.finish(),
            }
        }
    }

    /// The start of an announcement: ask who occupies the voice channel.
    pub open spec fn announce(self, channel_id: String, then: After) -> (
        SessionState,
        Seq<Effect>,
    ) {
        (
            self.awaiting(Pending::Occupants { channel_id, then }),
            seq![Effect::Query(StoreRequest::VoiceOccupants { channel_id })],
        )
    }

    /// The start of the teardown: clear the user's voice presence.
    pub open spec fn begin_teardown(self) -> (SessionState, Seq<Effect>) {
        (
            SessionState {
                connection: self.connection,
                phase: Phase::Closing,
                user_id: self.user_id,
                rooms: self.rooms,
                pending: Pending::Vacating { then: After::Teardown },
            },
            seq![Effect::Query(StoreRequest::LeaveVoice { user_id: self.user_id })],
        )
    }

    /// The handshake. The first frame must be `auth`. A frame with another
    /// tag, or with none, closes the connection without a word. An `auth`
    /// frame whose payload is missing or malformed is answered with an
    /// error, then the connection closes; the verifier is not asked. A token
    /// that the verifier turns down is answered with an error, then the
    /// connection closes. A user that the verifier names is subscribed to
    /// each of its rooms once, then greeted; a store that cannot list the
    /// rooms counts as no rooms.
    pub open spec fn handshake(self, event: Event) -> (SessionState, Seq<Effect>) {
        match (self.pending, event) {
            (Pending::Idle, Event::Frame(text)) => match Inbound::decoded(text@) {
                Some(Inbound::Auth(auth)) => (
                    self.awaiting(Pending::Verdict),
                    seq![Effect::Verify { token: auth.token }],
                ),
                _ => if Inbound::malformed_auth(text@) {
                    (self.closed(), seq![Effect::Send(Outbound::MalformedAuth), Effect::Close])
                } else {
                    (self.closed(), seq![Effect::Close])
                },
            },
            (Pending::Verdict, Event::Verdict(Some(user_id))) => (
                SessionState {
                    connection: self.connection,
                    phase: self.phase,
                    user_id,
                    rooms: self.rooms,
                    pending: Pending::Rooms,
                },
                seq![Effect::Query(StoreRequest::RoomsForUser { user_id })],
            ),
            (Pending::Verdict, Event::Verdict(None)) => (
                self.closed(),
                seq![Effect::Send(Outbound::InvalidToken), Effect::Close],
            ),
            (Pending::Rooms, Event::Reply(reply)) => {
                let rooms = match reply {
                    StoreReply::Rooms(rows) => distinct_ids(rows@),
                    _ => Seq::empty(),
                };
                (
                    SessionState {
                        connection: self.connection,
                        phase: Phase::Authenticated,
                        user_id: self.user_id,
                        rooms,
                        pending: Pending::Idle,
                    },
                    subscriptions(self.connection, self.user_id, rooms).push(
                        Effect::Send(Outbound::AuthSuccess),
                    ),
                )
            },
            _ => (self.closed(), seq![Effect::Close]),
        }
    }

    /// The first step of each handler: what a decoded message makes an idle,
    /// authenticated session ask.
    pub open spec fn dispatch(self, message: Inbound) -> (SessionState, Seq<Effect>) {
        match message {
            Inbound::Auth(_) => (self, Seq::empty()),
            Inbound::SendMessage(p) => (
                self.awaiting(Pending::MessageStored { channel_id: p.channel_id.text() }),
                seq![
                    Effect::Query(
                        StoreRequest::CreateMessage {
                            channel_id: p.channel_id.text(),
                            author_id: self.user_id,
                            content: p.content,
                        },
                    ),
                ],
            ),
            Inbound::Typing(p) => (
                self.awaiting(Pending::TypingRoom { channel_id: p.channel_id }),
                seq![
                    Effect::Query(StoreRequest::RoomForChannel { channel_id: p.channel_id.text() }),
                ],
            ),
            Inbound::JoinVoice(p) => (
                self.awaiting(Pending::CurrentVoice { target: p.channel_id.text() }),
                seq![Effect::Query(StoreRequest::UserVoiceChannel { user_id: self.user_id })],
            ),
            Inbound::LeaveVoice(_) => (
                self.awaiting(Pending::Vacating { then: After::Rest }),
                seq![Effect::Query(StoreRequest::LeaveVoice { user_id: self.user_id })],
            ),
            Inbound::VoiceMuteDeafen(p) => (
                self.awaiting(Pending::FlagsStored),
                seq![
                    Effect::Query(
                        StoreRequest::UpdateVoiceState {
                            user_id: self.user_id,
                            muted: p.muted,
                            deafened: p.deafened,
                        },
                    ),
                ],
            ),
            Inbound::SignalSdp(p) => (
                self.awaiting(Pending::RelayChannel { relay: Relay::Sdp(p) }),
                seq![Effect::Query(StoreRequest::UserVoiceChannel { user_id: self.user_id })],
            ),
            Inbound::SignalIce(p) => (
                self.awaiting(Pending::RelayChannel { relay: Relay::Ice(p) }),
                seq![Effect::Query(StoreRequest::UserVoiceChannel { user_id: self.user_id })],
            ),
        }
    }

    /// The next step of the handler that waits for `reply`. An answer that
    /// reports a failure, or is not of the kind awaited, ends the handler
    /// without publishing; only an announcement that cannot be made is
    /// skipped, and what was planned after it still follows.
    pub open spec fn resume(self, reply: StoreReply) -> (SessionState, Seq<Effect>) {
        match (self.pending, reply) {
            (Pending::Idle, _) => (self, Seq::empty()),
            (Pending::MessageStored { channel_id }, StoreReply::Message(record)) => (
                self.awaiting(Pending::MessageRoom { record }),
                seq![Effect::Query(StoreRequest::RoomForChannel { channel_id })],
            ),
            (Pending::MessageRoom { record }, StoreReply::Room(Some(room_id))) => (
                self.awaiting(Pending::Idle),
                seq![Effect::Publish { room_id, message: Outbound::MessageCreated { record } }],
            ),
            (Pending::TypingRoom { channel_id }, StoreReply::Room(Some(room_id))) => (
                self.awaiting(Pending::TypingProfile { channel_id, room_id }),
                seq![Effect::Query(StoreRequest::UserProfile { user_id: self.user_id })],
            ),
            (Pending::TypingProfile { channel_id, room_id }, StoreReply::Profile(Some(user))) => (
                self.awaiting(Pending::Idle),
                seq![Effect::Publish { room_id, message: Outbound::UserTyping { channel_id, user } }],
            ),
            (Pending::CurrentVoice { target }, StoreReply::VoiceChannel(current)) => {
                if current is Some && current->0@ != target@ {
                    (
                        self.awaiting(
                            Pending::Vacating { then: After::Join { channel_id: target } },
                        ),
                        seq![Effect::Query(StoreRequest::LeaveVoice { user_id: self.user_id })],
                    )
                } else {
                    self.settle(After::Join { channel_id: target })
                }
            },
            (Pending::Vacating { then }, StoreReply::Left(Some(channel_id))) => self.announce(
                channel_id,
                then,
            ),
            (Pending::Vacating { then }, StoreReply::Left(None)) => self.settle(then),
            (Pending::Occupants { channel_id, then }, StoreReply::Occupants(occupants)) => (
                self.awaiting(Pending::OccupantsRoom { channel_id, occupants, then }),
                seq![Effect::Query(StoreRequest::RoomForChannel { channel_id })],
            ),
            (Pending::Occupants { channel_id, then }, _) => self.settle(then),
            (
                Pending::OccupantsRoom { channel_id, occupants, then },
                StoreReply::Room(Some(room_id)),
            ) => {
                let (next, effects) = self.settle(then);
                (
                    next,
                    seq![
                        Effect::Publish {
                            room_id,
                            message: Outbound::VoiceStateUpdate { channel_id, occupants },
                        },
                    ] + effects,
                )
            },
            (Pending::OccupantsRoom { channel_id, occupants, then }, _) => self.settle(then),
            (Pending::Joining { channel_id }, StoreReply::Done) => self.announce(
                channel_id,
                After::Rest,
            ),
            (Pending::FlagsStored, StoreReply::Done) => (
                self.awaiting(Pending::FlagsChannel),
                seq![Effect::Query(StoreRequest::UserVoiceChannel { user_id: self.user_id })],
            ),
            (Pending::FlagsChannel, StoreReply::VoiceChannel(Some(channel_id))) => self.announce(
                channel_id,
                After::Rest,
            ),
            (Pending::RelayChannel { relay }, StoreReply::VoiceChannel(Some(channel_id))) => (
                self.awaiting(Pending::RelayRoom { relay }),
                seq![Effect::Query(StoreRequest::RoomForChannel { channel_id })],
            ),
            (Pending::RelayRoom { relay }, StoreReply::Room(Some(room_id))) => (
                self.awaiting(Pending::Idle),
                seq![Effect::Publish { room_id, message: relay.outbound(self.user_id) }],
            ),
            _ => self.settle(After::Rest),
        }
    }

    /// What one event does to a session: the state it leaves and the effects
    /// it asks for.
    ///
    /// Before the handshake is over, see `handshake`. Afterwards a frame that
    /// does not decode is dropped and the connection stays open; so is a
    /// frame that arrives while an answer of the store is awaited. The loss
    /// of the socket starts the teardown, which clears the user's voice
    /// presence, announces the vacancy, removes this connection's
    /// subscriptions and ends in `Closed`. A closed session ignores
    /// everything.
    pub open spec fn step(self, event: Event) -> (SessionState, Seq<Effect>) {
        match self.phase {
            Phase::Closed => (self, Seq::empty()),
            Phase::AwaitingAuth => self.handshake(event),
            Phase::Authenticated => match event {
                Event::Hangup => self.begin_teardown(),
                Event::Frame(text) => if self.pending is Idle {
                    match Inbound::decoded(text@) {
                        Some(message) => self.dispatch(message),
                        None => (self, Seq::empty()),
                    }
                } else {
                    (self, Seq::empty())
                },
                Event::Reply(reply) => self.resume(reply),
                Event::Verdict(_) => (self, Seq::empty()),
            },
            Phase::Closing => match event {
                Event::Reply(reply) => self.resume(reply),
                _ => (self, Seq::empty()),
            },
        }
    }
}

/// No effect.
fn nothing() -> (effects: Vec<Effect>)
    ensures
        effects@ == Seq::<Effect>::empty(),
{
    Vec::new()
}

/// One effect.
fn one(effect: Effect) -> (effects: Vec<Effect>)
    ensures
        effects@ == seq![effect],
{
    let mut effects = Vec::new();
    effects.push(effect);
    assert(effects@ =~= seq![effect]);
    effects
}

/// Two effects, in order.
fn two(first: Effect, second: Effect) -> (effects: Vec<Effect>)
    ensures
        effects@ == seq![first, second],
{
    let mut effects = Vec::new();
    effects.push(first);
    effects.push(second);
    assert(effects@ =~= seq![first, second]);
    effects
}

/// One connection's protocol state.
#[derive(Debug)]
pub struct Session {
    connection: u64,
    phase: Phase,
    user_id: String,
    rooms: Vec<String>,
    pending: Pending,
}

impl View for Session {
    type V = SessionState;

    closed spec fn view(&self) -> SessionState {
        SessionState {
            connection: self.connection,
            phase: self.phase,
            user_id: self.user_id,
            rooms: self.rooms@,
            pending: self.pending,
        }
    }
}

impl Session {
    /// The session of a connection whose socket has just opened: it awaits
    /// the `auth` frame, is bound to nobody and subscribed to nothing.
    /// `connection` tells it from every other connection.
    pub fn new(connection: u64) -> (session: Session)
        ensures
            session@ == SessionState::opened(connection, session@.user_id),
            session@.user_id@ == Seq::<char>::empty(),
    {
        Session {
            connection,
            phase: Phase::AwaitingAuth,
            user_id: String::new(),
            rooms: Vec::new(),
            pending: Pending::Idle,
        }
    }

    /// What tells this connection from every other.
    pub fn connection(&self) -> (connection: u64)
        ensures
            connection == self@.connection,
    {
        self.connection
    }

    /// Where the connection stands in its life.
    pub fn phase(&self) -> (phase: Phase)
        ensures
            phase == self@.phase,
    {
        self.phase
    }

    /// Whether the connection is closed for good.
    pub fn is_closed(&self) -> (closed: bool)
        ensures
            closed == (self@.phase is Closed),
    {
        match self.phase {
            Phase::Closed => true,
            _ => false,
        }
    }

    /// The user bound to the connection.
    pub fn user_id(&self) -> (user_id: &str)
        ensures
            user_id@ == self@.user_id@,
    {
        self.user_id.as_str()
    }

    /// The rooms this connection is subscribed to.
    pub fn rooms(&self) -> (rooms: &Vec<String>)
        ensures
            rooms@ == self@.rooms,
    {
        &self.rooms
    }

    /// Whether an answer of the verifier or of the store is awaited.
    pub fn is_waiting(&self) -> (waiting: bool)
        ensures
            waiting == !(self@.pending is Idle),
    {
        match &self.pending {
            Pending::Idle => false,
            _ => true,
        }
    }

    fn close(&mut self)
        ensures
            final(self)@ == old(self)@.closed(),
    {
        self.phase = Phase::Closed;
        self.rooms = Vec::new();
        self.pending = Pending::Idle;
    }

    fn finish(&mut self) -> (effects: Vec<Effect>)
        ensures
            (final(self)@, effects@) == old(self)@.finish(),
    {
        let effects = two(
            Effect::Unsubscribe { connection: self.connection, user_id: self.user_id.clone() },
            Effect::Close,
        );
        self.close();
        effects
    }

    fn settle(&mut self, then: After) -> (effects: Vec<Effect>)
        ensures
            (final(self)@, effects@) == old(self)@.settle(then),
    {
        match self.phase {
            Phase::Closing => {
                return self.finish();
            },
            _ => {},
        }
        match then {
            After::Rest => {
                self.pending = Pending::Idle;
                nothing()
            },
            After::Join { channel_id } => {
                let effects = one(
                    Effect::Query(
                        StoreRequest::JoinVoice {
                            user_id: self.user_id.clone(),
                            channel_id: channel_id.clone(),
                        },
                    ),
                );
                self.pending = Pending::Joining { channel_id };
                effects
            },
            After::Teardown => self.finish(),
        }
    }

    fn announce(&mut self, channel_id: String, then: After) -> (effects: Vec<Effect>)
        ensures
            (final(self)@, effects@) == old(self)@.announce(channel_id, then),
    {
        let effects = one(
            Effect::Query(StoreRequest::VoiceOccupants { channel_id: channel_id.clone() }),
        );
        self.pending = Pending::Occupants { channel_id, then };
        effects
    }

    fn begin_teardown(&mut self) -> (effects: Vec<Effect>)
        ensures
            (final(self)@, effects@) == old(self)@.begin_teardown(),
    {
        self.phase = Phase::Closing;
        self.pending = Pending::Vacating { then: After::Teardown };
        one(Effect::Query(StoreRequest::LeaveVoice { user_id: self.user_id.clone() }))
    }

    /// Subscribes the user to each room of `rows` once and greets it.
    fn enter(&mut self, rows: &Vec<ServerRow>) -> (effects: Vec<Effect>)
        ensures
            final(self)@ == (SessionState {
                connection: old(self)@.connection,
                phase: Phase::Authenticated,
                user_id: old(self)@.user_id,
                rooms: distinct_ids(rows@),
                pending: Pending::Idle,
            }),
            effects@ == subscriptions(
                old(self)@.connection,
                old(self)@.user_id,
                distinct_ids(rows@),
            ).push(Effect::Send(Outbound::AuthSuccess)),
    {
        let mut rooms: Vec<String> = Vec::new();
        let mut effects: Vec<Effect> = Vec::new();
        let mut i: usize = 0;
        assert(rows@.take(0) =~= Seq::empty());
        while i < rows.len()
            invariant
                *self == *old(self),
                i <= rows.len(),
                rooms@ == distinct_ids(rows@.take(i as int)),
                effects@ =~= subscriptions(self.connection, self.user_id, rooms@),
            decreases rows.len() - i,
        {
            proof {
                assert(rows@.take(i as int + 1).drop_last() =~= rows@.take(i as int));
                assert(rows@.take(i as int + 1).last() == rows@[i as int]);
            }
            if !crate::text::contains_str(&rooms, rows[i].id.as_str()) {
                let room_id = rows[i].id.clone();
                effects.push(
                    Effect::Subscribe {
                        connection: self.connection,
                        user_id: self.user_id.clone(),
                        room_id: room_id.clone(),
                    },
                );
                rooms.push(room_id);
            }
            i += 1;
        }
        assert(rows@.take(rows.len() as int) =~= rows@);
        effects.push(Effect::Send(Outbound::AuthSuccess));
        self.phase = Phase::Authenticated;
        self.rooms = rooms;
        self.pending = Pending::Idle;
        effects
    }

    fn handshake(&mut self, event: Event) -> (effects: Vec<Effect>)
        ensures
            (final(self)@, effects@) == old(self)@.handshake(event),
    {
        let mut pending = Pending::Idle;
        core::mem::swap(&mut self.pending, &mut pending);
        match (pending, event) {
            (Pending::Idle, Event::Frame(text)) => match Inbound::decode(text.as_str()) {
                Some(Inbound::Auth(auth)) => {
                    self.pending = Pending::Verdict;
                    one(Effect::Verify { token: auth.token })
                },
                _ => {
                    let malformed = Inbound::is_malformed_auth(text.as_str());
                    self.close();
                    if malformed {
                        two(Effect::Send(Outbound::MalformedAuth), Effect::Close)
                    } else {
                        one(Effect::Close)
                    }
                },
            },
            (Pending::Verdict, Event::Verdict(Some(user_id))) => {
                let effects = one(
                    Effect::Query(StoreRequest::RoomsForUser { user_id: user_id.clone() }),
                );
                self.user_id = user_id;
                self.pending = Pending::Rooms;
                effects
            },
            (Pending::Verdict, Event::Verdict(None)) => {
                self.close();
                two(Effect::Send(Outbound::InvalidToken), Effect::Close)
            },
            (Pending::Rooms, Event::Reply(reply)) => match reply {
                StoreReply::Rooms(rows) => self.enter(&rows),
                _ => {
                    let rows: Vec<ServerRow> = Vec::new();
                    assert(distinct_ids(rows@) =~= Seq::<String>::empty());
                    self.enter(&rows)
                },
            },
            _ => {
                self.close();
                one(Effect::Close)
            },
        }
    }

    fn dispatch(&mut self, message: Inbound) -> (effects: Vec<Effect>)
        ensures
            (final(self)@, effects@) == old(self)@.dispatch(message),
    {
        match message {
            Inbound::Auth(_) => nothing(),
            Inbound::SendMessage(p) => {
                let channel_id = p.channel_id.to_string();
                self.pending = Pending::MessageStored { channel_id: channel_id.clone() };
                one(
                    Effect::Query(
                        StoreRequest::CreateMessage {
                            channel_id,
                            author_id: self.user_id.clone(),
                            content: p.content,
                        },
                    ),
                )
            },
            Inbound::Typing(p) => {
                let channel_id = p.channel_id.to_string();
                self.pending = Pending::TypingRoom { channel_id: p.channel_id };
                one(Effect::Query(StoreRequest::RoomForChannel { channel_id }))
            },
            Inbound::JoinVoice(p) => {
                self.pending = Pending::CurrentVoice { target: p.channel_id.to_string() };
                one(Effect::Query(StoreRequest::UserVoiceChannel { user_id: self.user_id.clone() }))
            },
            Inbound::LeaveVoice(_) => {
                self.pending = Pending::Vacating { then: After::Rest };
                one(Effect::Query(StoreRequest::LeaveVoice { user_id: self.user_id.clone() }))
            },
            Inbound::VoiceMuteDeafen(p) => {
                self.pending = Pending::FlagsStored;
                one(
                    Effect::Query(
                        StoreRequest::UpdateVoiceState {
                            user_id: self.user_id.clone(),
                            muted: p.muted,
                            deafened: p.deafened,
                        },
                    ),
                )
            },
            Inbound::SignalSdp(p) => {
                self.pending = Pending::RelayChannel { relay: Relay::Sdp(p) };
                one(Effect::Query(StoreRequest::UserVoiceChannel { user_id: self.user_id.clone() }))
            },
            Inbound::SignalIce(p) => {
                self.pending = Pending::RelayChannel { relay: Relay::Ice(p) };
                one(Effect::Query(StoreRequest::UserVoiceChannel { user_id: self.user_id.clone() }))
            },
        }
    }

    fn resume(&mut self, reply: StoreReply) -> (effects: Vec<Effect>)
        ensures
            (final(self)@, effects@) == old(self)@.resume(reply),
    {
        let mut pending = Pending::Idle;
        core::mem::swap(&mut self.pending, &mut pending);
        match (pending, reply) {
            (Pending::Idle, _) => nothing(),
            (Pending::MessageStored { channel_id }, StoreReply::Message(record)) => {
                self.pending = Pending::MessageRoom { record };
                one(Effect::Query(StoreRequest::RoomForChannel { channel_id }))
            },
            (Pending::MessageRoom { record }, StoreReply::Room(Some(room_id))) => {
                one(Effect::Publish { room_id, message: Outbound::MessageCreated { record } })
            },
            (Pending::TypingRoom { channel_id }, StoreReply::Room(Some(room_id))) => {
                self.pending = Pending::TypingProfile { channel_id, room_id };
                one(Effect::Query(StoreRequest::UserProfile { user_id: self.user_id.clone() }))
            },
            (Pending::TypingProfile { channel_id, room_id }, StoreReply::Profile(Some(user))) => {
                one(Effect::Publish { room_id, message: Outbound::UserTyping { channel_id, user } })
            },
            (Pending::CurrentVoice { target }, StoreReply::VoiceChannel(current)) => {
                let elsewhere = match &current {
                    Some(channel_id) => !str_eq(channel_id.as_str(), target.as_str()),
                    None => false,
                };
                if elsewhere {
                    self.pending = Pending::Vacating { then: After::Join { channel_id: target } };
                    one(Effect::Query(StoreRequest::LeaveVoice { user_id: self.user_id.clone() }))
                } else {
                    self.settle(After::Join { channel_id: target })
                }
            },
            (Pending::Vacating { then }, StoreReply::Left(Some(channel_id))) => self.announce(
                channel_id,
                then,
            ),
            (Pending::Vacating { then }, StoreReply::Left(None)) => self.settle(then),
            (Pending::Occupants { channel_id, then }, StoreReply::Occupants(occupants)) => {
                let effects = one(
                    Effect::Query(StoreRequest::RoomForChannel { channel_id: channel_id.clone() }),
                );
                self.pending = Pending::OccupantsRoom { channel_id, occupants, then };
                effects
            },
            (Pending::Occupants { channel_id, then }, _) => self.settle(then),
            (
                Pending::OccupantsRoom { channel_id, occupants, then },
                StoreReply::Room(Some(room_id)),
            ) => {
                let announcement = Effect::Publish {
                    room_id,
                    message: Outbound::VoiceStateUpdate { channel_id, occupants },
                };
                let mut effects = one(announcement);
                let mut more = self.settle(then);
                let ghost planned = more@;
                effects.append(&mut more);
                assert(effects@ =~= seq![announcement] + planned);
                effects
            },
            (Pending::OccupantsRoom { channel_id, occupants, then }, _) => self.settle(then),
            (Pending::Joining { channel_id }, StoreReply::Done) => self.announce(
                channel_id,
                After::Rest,
            ),
            (Pending::FlagsStored, StoreReply::Done) => {
                self.pending = Pending::FlagsChannel;
                one(Effect::Query(StoreRequest::UserVoiceChannel { user_id: self.user_id.clone() }))
            },
            (Pending::FlagsChannel, StoreReply::VoiceChannel(Some(channel_id))) => self.announce(
                channel_id,
                After::Rest,
            ),
            (Pending::RelayChannel { relay }, StoreReply::VoiceChannel(Some(channel_id))) => {
                self.pending = Pending::RelayRoom { relay };
                one(Effect::Query(StoreRequest::RoomForChannel { channel_id }))
            },
            (Pending::RelayRoom { relay }, StoreReply::Room(Some(room_id))) => {
                let message = relay.into_outbound(self.user_id.clone());
                one(Effect::Publish { room_id, message })
            },
            _ => self.settle(After::Rest),
        }
    }

    /// Hands one event to the session and takes the effects to perform, in
    /// order. The session moves as `SessionState::step` says.
    pub fn handle(&mut self, event: Event) -> (effects: Vec<Effect>)
        ensures
            (final(self)@, effects@) == old(self)@.step(event),
    {
        match self.phase {
            Phase::Closed => nothing(),
            Phase::AwaitingAuth => self.handshake(event),
            Phase::Authenticated => match event {
                Event::Hangup => self.begin_teardown(),
                Event::Frame(text) => {
                    if self.is_waiting() {
                        nothing()
                    } else {
                        match Inbound::decode(text.as_str()) {
                            Some(message) => self.dispatch(message),
                            None => nothing(),
                        }
                    }
                },
                Event::Reply(reply) => self.resume(reply),
                Event::Verdict(_) => nothing(),
            },
            Phase::Closing => match event {
                Event::Reply(reply) => self.resume(reply),
                _ => nothing(),
            },
        }
    }
}

} // verus!
