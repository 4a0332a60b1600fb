//! The wire protocol: every frame, in either direction, is one JSON object
//! with a `type` and a `payload`. This module holds the payloads, reads the
//! frames that clients send and writes the frames that the hub sends.

use vstd::prelude::*;
use crate::db::{MessageRow, UserRow, VoiceStateRow};
use crate::ids::Uuid;
use crate::json::{array, bool_text, integer_text, member, object, optional_bool, optional_integer, optional_quoted, quoted};
use crate::json::{bool_of, field_of, field_wire, json_members, members_of, optional_text_of, optional_u16_of, text_of, Field};
use crate::json::{find_bool, find_field, find_members, find_optional_text, find_optional_u16, find_text, parse_object};
use crate::json::{json_integer, json_quote, write_bool, write_field, write_member, write_object, write_optional, write_optional_bool, write_optional_integer};
use crate::models::{Message, ReactionGroup, UserPublic, VoiceState};
use crate::text::{clone_optional, str_eq, views};

verus! {

/// A frame taken apart: its tag, and its payload as JSON text.
#[derive(Debug, Clone, PartialEq, Eq)]
pub struct WsEnvelope {
    /// The tag; on the wire this member is named `type`.
    pub msg_type: String,
    /// The payload, rendered as JSON.
    pub payload: String,
}

impl WsEnvelope {
    /// The text of a frame with this tag and this rendered payload.
    pub open spec fn frame(tag: Seq<char>, payload: Seq<char>) -> Seq<char> {
        "{\"type\":"@ + quoted(tag) + ",\"payload\":"@ + payload + "}"@
    }

    /// The text of this frame.
    pub open spec fn wire(&self) -> Seq<char> {
        WsEnvelope::frame(self.msg_type@, self.payload@)
    }

    /// Renders this frame.
    pub fn to_text(&self) -> (r: String)
        ensures
            r@ == self.wire(),
    {
        let mut out = String::from_str("{\"type\":");
        out.append(json_quote(self.msg_type.as_str()).as_str());
        out.append(",\"payload\":");
        out.append(self.payload.as_str());
        out.append("}");
        out
    }
}

impl WsEnvelope {
    /// The tag and the rendered payload of the frame `text`; `None` where
    /// `text` is no JSON object with a string under `type` and a `payload`.
    pub open spec fn parts_of(text: Seq<char>) -> Option<(String, Seq<char>)> {
        match json_members(text) {
            Some(top) => match (text_of(top, "type"@), field_of(top, "payload"@)) {
                (Some(tag), Some(payload)) => Some((tag, field_wire(payload))),
                _ => None,
            },
            None => None,
        }
    }

    /// Takes a frame apart, whatever its tag.
    pub fn from_text(text: &str) -> (r: Option<WsEnvelope>)
        ensures
            match r {
                Some(envelope) => WsEnvelope::parts_of(text@) == Some(
                    (envelope.msg_type, envelope.payload@),
                ),
                None => WsEnvelope::parts_of(text@) is None,
            },
    {
        let top = match parse_object(text) {
            Some(top) => top,
            None => {
                return None;
            },
        };
        match (find_text(&top, "type"), find_field(&top, "payload")) {
            (Some(msg_type), Some(payload)) => Some(
                WsEnvelope { msg_type, payload: write_field(payload) },
            ),
            _ => None,
        }
    }
}

/// The UUID spelled by the string that the member `key` holds.
pub open spec fn uuid_of(members: Seq<(String, Field)>, key: Seq<char>) -> Option<Uuid> {
    match text_of(members, key) {
        Some(s) => Uuid::parsed(s@),
        None => None,
    }
}

/// Reads the member `key` as a UUID.
pub fn find_uuid(members: &Vec<(String, Field)>, key: &str) -> (r: Option<Uuid>)
    ensures
        r == uuid_of(members@, key@),
{
    match find_text(members, key) {
        Some(s) => Uuid::parse_str(s.as_str()),
        None => None,
    }
}

/// The first frame of a connection: the bearer token.
#[derive(Debug, Clone, PartialEq, Eq)]
pub struct WsAuth {
    pub token: String,
}

/// A chat message to post in a channel.
#[derive(Debug, Clone, PartialEq, Eq)]
pub struct WsSendMessage {
    pub channel_id: Uuid,
    pub content: String,
}

/// A new text for a message.
#[derive(Debug, Clone, PartialEq, Eq)]
pub struct WsEditMessage {
    pub message_id: Uuid,
    pub content: String,
}

/// A message to delete.
#[derive(Debug, Clone, PartialEq, Eq)]
pub struct WsDeleteMessage {
    pub message_id: Uuid,
}

/// A reaction to add to a message.
#[derive(Debug, Clone, PartialEq, Eq)]
pub struct WsAddReaction {
    pub message_id: Uuid,
    pub emoji: String,
}

/// A reaction to take off a message.
#[derive(Debug, Clone, PartialEq, Eq)]
pub struct WsRemoveReaction {
    pub message_id: Uuid,
    pub emoji: String,
}

/// The sender is typing in a channel.
#[derive(Debug, Clone, PartialEq, Eq)]
pub struct WsTyping {
    pub channel_id: Uuid,
}

/// The sender enters a voice channel.
#[derive(Debug, Clone, PartialEq, Eq)]
pub struct WsJoinVoice {
    pub channel_id: Uuid,
}

/// The sender leaves the voice channel it occupies.
#[derive(Debug, Clone, PartialEq, Eq)]
pub struct WsLeaveVoice {}

/// The sender's new mute and deafen flags.
#[derive(Debug, Clone, PartialEq, Eq)]
pub struct WsVoiceMuteDeafen {
    pub muted: bool,
    pub deafened: bool,
}

/// Call setup: a session description for another user.
#[derive(Debug, Clone, PartialEq, Eq)]
pub struct WsSignalSdp {
    pub target_user_id: Uuid,
    pub sdp: String,
    /// Either `offer` or `answer`.
    pub sdp_type: String,
}

/// Call setup: a connectivity candidate for another user.
#[derive(Debug, Clone, PartialEq, Eq)]
pub struct WsSignalIce {
    pub target_user_id: Uuid,
    pub candidate: String,
    pub sdp_mid: Option<String>,
    pub sdp_mline_index: Option<u16>,
}

/// A message was posted.
#[derive(Debug, Clone, PartialEq, Eq)]
pub struct WsMessageCreated {
    pub message: Message,
}

impl WsMessageCreated {
    /// The rendered members of this record's JSON object, in key order.
    pub open spec fn members(&self) -> Seq<Seq<char>> {
        seq![
            member("message"@, self.message.wire()),
        ]
    }

    /// The JSON text of this record.
    pub open spec fn wire(&self) -> Seq<char> {
        object(self.members())
    }

    /// Renders this record as JSON.
    pub fn to_json(&self) -> (r: String)
        ensures
            r@ == self.wire(),
    {
        let mut members: Vec<String> = Vec::new();
        members.push(write_member("message", self.message.to_json().as_str()));
        assert(views(members@) =~= self.members());
        write_object(&members)
    }
}

/// A message changed: its text, or whether it is pinned. A member that did not
/// change is null.
#[derive(Debug, Clone, PartialEq, Eq)]
pub struct WsMessageUpdated {
    pub message_id: Uuid,
    pub content: Option<String>,
    pub edited_at: Option<String>,
    pub pinned: Option<bool>,
}

impl WsMessageUpdated {
    /// The rendered members of this record's JSON object, in key order.
    pub open spec fn members(&self) -> Seq<Seq<char>> {
        seq![
            member("content"@, optional_quoted(self.content)),
            member("edited_at"@, optional_quoted(self.edited_at)),
            member("message_id"@, quoted(self.message_id.text()@)),
            member("pinned"@, optional_bool(self.pinned)),
        ]
    }

    /// The JSON text of this record.
    pub open spec fn wire(&self) -> Seq<char> {
        object(self.members())
    }

    /// Renders this record as JSON.
    pub fn to_json(&self) -> (r: String)
        ensures
            r@ == self.wire(),
    {
        let mut members: Vec<String> = Vec::new();
        members.push(write_member("content", write_optional(&self.content).as_str()));
        members.push(write_member("edited_at", write_optional(&self.edited_at).as_str()));
        members.push(write_member("message_id", json_quote(self.message_id.as_str()).as_str()));
        members.push(write_member("pinned", write_optional_bool(self.pinned).as_str()));
        assert(views(members@) =~= self.members());
        write_object(&members)
    }
}

/// A message was deleted.
#[derive(Debug, Clone, PartialEq, Eq)]
pub struct WsMessageDeleted {
    pub message_id: Uuid,
    pub channel_id: Uuid,
}

impl WsMessageDeleted {
    /// The rendered members of this record's JSON object, in key order.
    pub open spec fn members(&self) -> Seq<Seq<char>> {
        seq![
            member("channel_id"@, quoted(self.channel_id.text()@)),
            member("message_id"@, quoted(self.message_id.text()@)),
        ]
    }

    /// The JSON text of this record.
    pub open spec fn wire(&self) -> Seq<char> {
        object(self.members())
    }

    /// Renders this record as JSON.
    pub fn to_json(&self) -> (r: String)
        ensures
            r@ == self.wire(),
    {
        let mut members: Vec<String> = Vec::new();
        members.push(write_member("channel_id", json_quote(self.channel_id.as_str()).as_str()));
        members.push(write_member("message_id", json_quote(self.message_id.as_str()).as_str()));
        assert(views(members@) =~= self.members());
        write_object(&members)
    }
}

/// The reactions to a message changed.
#[derive(Debug, Clone, PartialEq, Eq)]
pub struct WsReactionUpdated {
    pub message_id: Uuid,
    pub reactions: Vec<ReactionGroup>,
}

impl WsReactionUpdated {
    /// The rendered members of the JSON object of a record made of these
    /// parts, in key order.
    pub open spec fn members_of(
        message_id: Uuid,
        reactions: Seq<ReactionGroup>,
    ) -> Seq<Seq<char>> {
        seq![
            member("message_id"@, quoted(message_id.text()@)),
            member("reactions"@, array(ReactionGroup::wire_all(reactions))),
        ]
    }

    /// The rendered members of this record's JSON object, in key order.
    pub open spec fn members(&self) -> Seq<Seq<char>> {
        WsReactionUpdated::members_of(
            self.message_id,
            self.reactions@,
        )
    }

    /// The JSON text of this record.
    pub open spec fn wire(&self) -> Seq<char> {
        object(self.members())
    }

    /// Renders this record as JSON.
    pub fn to_json(&self) -> (r: String)
        ensures
            r@ == self.wire(),
    {
        let mut members: Vec<String> = Vec::new();
        members.push(write_member("message_id", json_quote(self.message_id.as_str()).as_str()));
        members.push(write_member("reactions", ReactionGroup::write_all(&self.reactions).as_str()));
        assert(views(members@) =~= self.members());
        write_object(&members)
    }
}

/// A user is typing in a channel.
#[derive(Debug, Clone, PartialEq, Eq)]
pub struct WsUserTyping {
    pub channel_id: Uuid,
    pub user: UserPublic,
}

impl WsUserTyping {
    /// The rendered members of this record's JSON object, in key order.
    pub open spec fn members(&self) -> Seq<Seq<char>> {
        seq![
            member("channel_id"@, quoted(self.channel_id.text()@)),
            member("user"@, self.user.wire()),
        ]
    }

    /// The JSON text of this record.
    pub open spec fn wire(&self) -> Seq<char> {
        object(self.members())
    }

    /// Renders this record as JSON.
    pub fn to_json(&self) -> (r: String)
        ensures
            r@ == self.wire(),
    {
        let mut members: Vec<String> = Vec::new();
        members.push(write_member("channel_id", json_quote(self.channel_id.as_str()).as_str()));
        members.push(write_member("user", self.user.to_json().as_str()));
        assert(views(members@) =~= self.members());
        write_object(&members)
    }
}

/// Who occupies a voice channel now, with everyone's flags.
#[derive(Debug, Clone, PartialEq, Eq)]
pub struct WsVoiceStateUpdate {
    pub channel_id: Uuid,
    pub voice_states: Vec<VoiceState>,
}

impl WsVoiceStateUpdate {
    /// The rendered members of the JSON object of a record made of these
    /// parts, in key order.
    pub open spec fn members_of(
        channel_id: Uuid,
        voice_states: Seq<VoiceState>,
    ) -> Seq<Seq<char>> {
        seq![
            member("channel_id"@, quoted(channel_id.text()@)),
            member("voice_states"@, array(VoiceState::wire_all(voice_states))),
        ]
    }

    /// The rendered members of this record's JSON object, in key order.
    pub open spec fn members(&self) -> Seq<Seq<char>> {
        WsVoiceStateUpdate::members_of(
            self.channel_id,
            self.voice_states@,
        )
    }

    /// The JSON text of this record.
    pub open spec fn wire(&self) -> Seq<char> {
        object(self.members())
    }

    /// Renders this record as JSON.
    pub fn to_json(&self) -> (r: String)
        ensures
            r@ == self.wire(),
    {
        let mut members: Vec<String> = Vec::new();
        members.push(write_member("channel_id", json_quote(self.channel_id.as_str()).as_str()));
        members.push(write_member("voice_states", VoiceState::write_all(&self.voice_states).as_str()));
        assert(views(members@) =~= self.members());
        write_object(&members)
    }
}

/// A session description passed on, with its sender and the user it is meant for.
#[derive(Debug, Clone, PartialEq, Eq)]
pub struct WsSignalSdpRelay {
    pub from_user_id: Uuid,
    pub target_user_id: Uuid,
    pub sdp: String,
    pub sdp_type: String,
}

impl WsSignalSdpRelay {
    /// The rendered members of this record's JSON object, in key order.
    pub open spec fn members(&self) -> Seq<Seq<char>> {
        seq![
            member("from_user_id"@, quoted(self.from_user_id.text()@)),
            member("sdp"@, quoted(self.sdp@)),
            member("sdp_type"@, quoted(self.sdp_type@)),
            member("target_user_id"@, quoted(self.target_user_id.text()@)),
        ]
    }

    /// The JSON text of this record.
    pub open spec fn wire(&self) -> Seq<char> {
        object(self.members())
    }

    /// Renders this record as JSON.
    pub fn to_json(&self) -> (r: String)
        ensures
            r@ == self.wire(),
    {
        let mut members: Vec<String> = Vec::new();
        members.push(write_member("from_user_id", json_quote(self.from_user_id.as_str()).as_str()));
        members.push(write_member("sdp", json_quote(self.sdp.as_str()).as_str()));
        members.push(write_member("sdp_type", json_quote(self.sdp_type.as_str()).as_str()));
        members.push(write_member("target_user_id", json_quote(self.target_user_id.as_str()).as_str()));
        assert(views(members@) =~= self.members());
        write_object(&members)
    }
}

/// A connectivity candidate passed on, with its sender and the user it is meant for.
#[derive(Debug, Clone, PartialEq, Eq)]
pub struct WsSignalIceRelay {
    pub from_user_id: Uuid,
    pub target_user_id: Uuid,
    pub candidate: String,
    pub sdp_mid: Option<String>,
    pub sdp_mline_index: Option<u16>,
}

impl WsSignalIceRelay {
    /// The rendered members of this record's JSON object, in key order.
    pub open spec fn members(&self) -> Seq<Seq<char>> {
        seq![
            member("candidate"@, quoted(self.candidate@)),
            member("from_user_id"@, quoted(self.from_user_id.text()@)),
            member("sdp_mid"@, optional_quoted(self.sdp_mid)),
            member("sdp_mline_index"@, optional_integer(match self.sdp_mline_index { Some(n) => Some(n as int), None => None })),
            member("target_user_id"@, quoted(self.target_user_id.text()@)),
        ]
    }

    /// The JSON text of this record.
    pub open spec fn wire(&self) -> Seq<char> {
        object(self.members())
    }

    /// Renders this record as JSON.
    pub fn to_json(&self) -> (r: String)
        ensures
            r@ == self.wire(),
    {
        let mut members: Vec<String> = Vec::new();
        members.push(write_member("candidate", json_quote(self.candidate.as_str()).as_str()));
        members.push(write_member("from_user_id", json_quote(self.from_user_id.as_str()).as_str()));
        members.push(write_member("sdp_mid", write_optional(&self.sdp_mid).as_str()));
        members.push(write_member("sdp_mline_index", write_optional_integer(match self.sdp_mline_index { Some(n) => Some(n as i128), None => None }).as_str()));
        members.push(write_member("target_user_id", json_quote(self.target_user_id.as_str()).as_str()));
        assert(views(members@) =~= self.members());
        write_object(&members)
    }
}

/// Why the hub turned a connection away.
#[derive(Debug, Clone, PartialEq, Eq)]
pub struct WsError {
    pub message: String,
}

impl WsError {
    /// The rendered members of this record's JSON object, in key order.
    pub open spec fn members(&self) -> Seq<Seq<char>> {
        seq![
            member("message"@, quoted(self.message@)),
        ]
    }

    /// The JSON text of this record.
    pub open spec fn wire(&self) -> Seq<char> {
        object(self.members())
    }

    /// Renders this record as JSON.
    pub fn to_json(&self) -> (r: String)
        ensures
            r@ == self.wire(),
    {
        let mut members: Vec<String> = Vec::new();
        members.push(write_member("message", json_quote(self.message.as_str()).as_str()));
        assert(views(members@) =~= self.members());
        write_object(&members)
    }
}
impl WsAuth {
    /// The payload that these members spell, if they have its shape.
    pub open spec fn of_members(members: Seq<(String, Field)>) -> Option<WsAuth> {
        match text_of(members, "token"@) {
            Some(token) => Some(WsAuth { token }),
            None => None,
        }
    }

    /// Reads the payload out of the members of a JSON object.
    pub fn from_members(members: &Vec<(String, Field)>) -> (r: Option<WsAuth>)
        ensures
            r == WsAuth::of_members(members@),
    {
        match find_text(members, "token") {
            Some(token) => Some(WsAuth { token }),
            None => None,
        }
    }
}

impl WsSendMessage {
    /// The payload that these members spell, if they have its shape.
    pub open spec fn of_members(members: Seq<(String, Field)>) -> Option<WsSendMessage> {
        match (uuid_of(members, "channel_id"@), text_of(members, "content"@)) {
            (Some(channel_id), Some(content)) => Some(WsSendMessage { channel_id, content }),
            _ => None,
        }
    }

    /// Reads the payload out of the members of a JSON object.
    pub fn from_members(members: &Vec<(String, Field)>) -> (r: Option<WsSendMessage>)
        ensures
            r == WsSendMessage::of_members(members@),
    {
        match (find_uuid(members, "channel_id"), find_text(members, "content")) {
            (Some(channel_id), Some(content)) => Some(WsSendMessage { channel_id, content }),
            _ => None,
        }
    }
}

impl WsTyping {
    /// The payload that these members spell, if they have its shape.
    pub open spec fn of_members(members: Seq<(String, Field)>) -> Option<WsTyping> {
        match uuid_of(members, "channel_id"@) {
            Some(channel_id) => Some(WsTyping { channel_id }),
            None => None,
        }
    }

    /// Reads the payload out of the members of a JSON object.
    pub fn from_members(members: &Vec<(String, Field)>) -> (r: Option<WsTyping>)
        ensures
            r == WsTyping::of_members(members@),
    {
        match find_uuid(members, "channel_id") {
            Some(channel_id) => Some(WsTyping { channel_id }),
            None => None,
        }
    }
}

impl WsJoinVoice {
    /// The payload that these members spell, if they have its shape.
    pub open spec fn of_members(members: Seq<(String, Field)>) -> Option<WsJoinVoice> {
        match uuid_of(members, "channel_id"@) {
            Some(channel_id) => Some(WsJoinVoice { channel_id }),
            None => None,
        }
    }

    /// Reads the payload out of the members of a JSON object.
    pub fn from_members(members: &Vec<(String, Field)>) -> (r: Option<WsJoinVoice>)
        ensures
            r == WsJoinVoice::of_members(members@),
    {
        match find_uuid(members, "channel_id") {
            Some(channel_id) => Some(WsJoinVoice { channel_id }),
            None => None,
        }
    }
}

impl WsVoiceMuteDeafen {
    /// The payload that these members spell, if they have its shape.
    pub open spec fn of_members(members: Seq<(String, Field)>) -> Option<WsVoiceMuteDeafen> {
        match (bool_of(members, "muted"@), bool_of(members, "deafened"@)) {
            (Some(muted), Some(deafened)) => Some(WsVoiceMuteDeafen { muted, deafened }),
            _ => None,
        }
    }

    /// Reads the payload out of the members of a JSON object.
    pub fn from_members(members: &Vec<(String, Field)>) -> (r: Option<WsVoiceMuteDeafen>)
        ensures
            r == WsVoiceMuteDeafen::of_members(members@),
    {
        match (find_bool(members, "muted"), find_bool(members, "deafened")) {
            (Some(muted), Some(deafened)) => Some(WsVoiceMuteDeafen { muted, deafened }),
            _ => None,
        }
    }
}

impl WsSignalSdp {
    /// The payload that these members spell, if they have its shape.
    pub open spec fn of_members(members: Seq<(String, Field)>) -> Option<WsSignalSdp> {
        match (
            uuid_of(members, "target_user_id"@),
            text_of(members, "sdp"@),
            text_of(members, "sdp_type"@),
        ) {
            (Some(target_user_id), Some(sdp), Some(sdp_type)) => Some(
                WsSignalSdp { target_user_id, sdp, sdp_type },
            ),
            _ => None,
        }
    }

    /// Reads the payload out of the members of a JSON object.
    pub fn from_members(members: &Vec<(String, Field)>) -> (r: Option<WsSignalSdp>)
        ensures
            r == WsSignalSdp::of_members(members@),
    {
        match (
            find_uuid(members, "target_user_id"),
            find_text(members, "sdp"),
            find_text(members, "sdp_type"),
        ) {
            (Some(target_user_id), Some(sdp), Some(sdp_type)) => Some(
                WsSignalSdp { target_user_id, sdp, sdp_type },
            ),
            _ => None,
        }
    }
}

impl WsSignalIce {
    /// The payload that these members spell, if they have its shape. The two
    /// last members may be left out.
    pub open spec fn of_members(members: Seq<(String, Field)>) -> Option<WsSignalIce> {
        match (
            uuid_of(members, "target_user_id"@),
            text_of(members, "candidate"@),
            optional_text_of(members, "sdp_mid"@),
            optional_u16_of(members, "sdp_mline_index"@),
        ) {
            (Some(target_user_id), Some(candidate), Some(sdp_mid), Some(sdp_mline_index)) => Some(
                WsSignalIce { target_user_id, candidate, sdp_mid, sdp_mline_index },
            ),
            _ => None,
        }
    }

    /// Reads the payload out of the members of a JSON object.
    pub fn from_members(members: &Vec<(String, Field)>) -> (r: Option<WsSignalIce>)
        ensures
            r == WsSignalIce::of_members(members@),
    {
        match (
            find_uuid(members, "target_user_id"),
            find_text(members, "candidate"),
            find_optional_text(members, "sdp_mid"),
            find_optional_u16(members, "sdp_mline_index"),
        ) {
            (Some(target_user_id), Some(candidate), Some(sdp_mid), Some(sdp_mline_index)) => Some(
                WsSignalIce { target_user_id, candidate, sdp_mid, sdp_mline_index },
            ),
            _ => None,
        }
    }
}

/// What a client may send: the closed set of inbound messages.
#[derive(Debug, Clone, PartialEq, Eq)]
pub enum Inbound {
    Auth(WsAuth),
    SendMessage(WsSendMessage),
    Typing(WsTyping),
    JoinVoice(WsJoinVoice),
    LeaveVoice(WsLeaveVoice),
    VoiceMuteDeafen(WsVoiceMuteDeafen),
    SignalSdp(WsSignalSdp),
    SignalIce(WsSignalIce),
}

impl Inbound {
    /// The message with this tag and this payload. `payload` holds the
    /// members of the payload where it is a JSON object. `leave_voice` takes
    /// any payload; every other tag needs an object of its own shape; an
    /// unknown tag gives `None`.
    pub open spec fn of_parts(tag: Seq<char>, payload: Option<Seq<(String, Field)>>) -> Option<
        Inbound,
    > {
        if tag == "leave_voice"@ {
            Some(Inbound::LeaveVoice(WsLeaveVoice {  }))
        } else {
            match payload {
                None => None,
                Some(members) => {
                    if tag == "auth"@ {
                        match WsAuth::of_members(members) {
                            Some(p) => Some(Inbound::Auth(p)),
                            None => None,
                        }
                    } else if tag == "send_message"@ {
                        match WsSendMessage::of_members(members) {
                            Some(p) => Some(Inbound::SendMessage(p)),
                            None => None,
                        }
                    } else if tag == "typing"@ {
                        match WsTyping::of_members(members) {
                            Some(p) => Some(Inbound::Typing(p)),
                            None => None,
                        }
                    } else if tag == "join_voice"@ {
                        match WsJoinVoice::of_members(members) {
                            Some(p) => Some(Inbound::JoinVoice(p)),
                            None => None,
                        }
                    } else if tag == "voice_mute_deafen"@ {
                        match WsVoiceMuteDeafen::of_members(members) {
                            Some(p) => Some(Inbound::VoiceMuteDeafen(p)),
                            None => None,
                        }
                    } else if tag == "signal_sdp"@ {
                        match WsSignalSdp::of_members(members) {
                            Some(p) => Some(Inbound::SignalSdp(p)),
                            None => None,
                        }
                    } else if tag == "signal_ice"@ {
                        match WsSignalIce::of_members(members) {
                            Some(p) => Some(Inbound::SignalIce(p)),
                            None => None,
                        }
                    } else {
                        None
                    }
                },
            }
        }
    }

    /// Whether `tag` is one of the tags that a client may send.
    pub open spec fn known(tag: Seq<char>) -> bool {
        ||| tag == "auth"@
        ||| tag == "send_message"@
        ||| tag == "typing"@
        ||| tag == "join_voice"@
        ||| tag == "leave_voice"@
        ||| tag == "voice_mute_deafen"@
        ||| tag == "signal_sdp"@
        ||| tag == "signal_ice"@
    }

    /// Only a frame with a known tag spells a message.
    pub proof fn lemma_decoded_is_known(text: Seq<char>)
        requires
            Inbound::decoded(text) is Some,
        ensures
            Inbound::tag_of(text) matches Some(tag) && Inbound::known(tag@),
    {
    }

    /// Tells whether `tag` is one of the tags that a client may send. A
    /// frame with any other tag is dropped; whoever reads the frames may
    /// want to log it.
    pub fn is_known(tag: &str) -> (r: bool)
        ensures
            r == Inbound::known(tag@),
    {
        str_eq(tag, "auth") || str_eq(tag, "send_message") || str_eq(tag, "typing") || str_eq(
            tag,
            "join_voice",
        ) || str_eq(tag, "leave_voice") || str_eq(tag, "voice_mute_deafen") || str_eq(
            tag,
            "signal_sdp",
        ) || str_eq(tag, "signal_ice")
    }

    /// The tag of the frame `text`: the string under `type` of the JSON
    /// object that `text` spells.
    pub open spec fn tag_of(text: Seq<char>) -> Option<String> {
        match json_members(text) {
            Some(top) => text_of(top, "type"@),
            None => None,
        }
    }

    /// The message that the frame `text` spells; `None` where it is no JSON
    /// object with a `type` and a `payload`, its tag is unknown, or the
    /// payload has not the shape that the tag asks for.
    pub open spec fn decoded(text: Seq<char>) -> Option<Inbound> {
        match json_members(text) {
            Some(top) => match (text_of(top, "type"@), field_of(top, "payload"@)) {
                (Some(tag), Some(_)) => Inbound::of_parts(tag@, members_of(top, "payload"@)),
                _ => None,
            },
            None => None,
        }
    }

    /// Whether the frame `text` has the tag `auth` and yet spells no `auth`
    /// message: its payload is missing or has not the shape of one.
    pub open spec fn malformed_auth(text: Seq<char>) -> bool {
        &&& Inbound::tag_of(text) matches Some(tag) && tag@ == "auth"@
        &&& Inbound::decoded(text) is None
    }

    /// Reads the message out of the members of a payload.
    fn from_parts(tag: &str, payload: Option<Vec<(String, Field)>>) -> (r: Option<Inbound>)
        ensures
            r == Inbound::of_parts(
                tag@,
                match payload {
                    Some(v) => Some(v@),
                    None => None,
                },
            ),
    {
        if str_eq(tag, "leave_voice") {
            return Some(Inbound::LeaveVoice(WsLeaveVoice {  }));
        }
        let members = match payload {
            Some(members) => members,
            None => {
                return None;
            },
        };
        if str_eq(tag, "auth") {
            match WsAuth::from_members(&members) {
                Some(p) => Some(Inbound::Auth(p)),
                None => None,
            }
        } else if str_eq(tag, "send_message") {
            match WsSendMessage::from_members(&members) {
                Some(p) => Some(Inbound::SendMessage(p)),
                None => None,
            }
        } else if str_eq(tag, "typing") {
            match WsTyping::from_members(&members) {
                Some(p) => Some(Inbound::Typing(p)),
                None => None,
            }
        } else if str_eq(tag, "join_voice") {
            match WsJoinVoice::from_members(&members) {
                Some(p) => Some(Inbound::JoinVoice(p)),
                None => None,
            }
        } else if str_eq(tag, "voice_mute_deafen") {
            match WsVoiceMuteDeafen::from_members(&members) {
                Some(p) => Some(Inbound::VoiceMuteDeafen(p)),
                None => None,
            }
        } else if str_eq(tag, "signal_sdp") {
            match WsSignalSdp::from_members(&members) {
                Some(p) => Some(Inbound::SignalSdp(p)),
                None => None,
            }
        } else if str_eq(tag, "signal_ice") {
            match WsSignalIce::from_members(&members) {
                Some(p) => Some(Inbound::SignalIce(p)),
                None => None,
            }
        } else {
            None
        }
    }

    /// Reads the tag of a frame, whatever else the frame holds.
    pub fn tag(text: &str) -> (r: Option<String>)
        ensures
            r == Inbound::tag_of(text@),
    {
        match parse_object(text) {
            Some(top) => find_text(&top, "type"),
            None => None,
        }
    }

    /// Reads one frame. Frames that do not decode are the caller's to drop.
    pub fn decode(text: &str) -> (r: Option<Inbound>)
        ensures
            r == Inbound::decoded(text@),
    {
        let top = match parse_object(text) {
            Some(top) => top,
            None => {
                return None;
            },
        };
        let tag = match find_text(&top, "type") {
            Some(tag) => tag,
            None => {
                return None;
            },
        };
        if find_field(&top, "payload").is_none() {
            return None;
        }
        let payload = find_members(&top, "payload");
        Inbound::from_parts(tag.as_str(), payload)
    }

    /// Tells whether a frame has the tag `auth` and yet spells no `auth`
    /// message.
    pub fn is_malformed_auth(text: &str) -> (r: bool)
        ensures
            r == Inbound::malformed_auth(text@),
    {
        match Inbound::tag(text) {
            Some(tag) => str_eq(tag.as_str(), "auth") && Inbound::decode(text).is_none(),
            None => false,
        }
    }
}

impl WsError {
    /// The answer to a token that the verifier turned down.
    pub fn invalid_token() -> (r: WsError)
        ensures
            r.message@ == "Invalid token"@,
    {
        WsError { message: String::from_str("Invalid token") }
    }

    /// The answer to an `auth` frame whose payload is missing or malformed.
    pub fn malformed_auth() -> (r: WsError)
        ensures
            r.message@ == "Malformed auth payload"@,
    {
        WsError { message: String::from_str("Malformed auth payload") }
    }
}

/// What the hub may send: the closed set of outbound messages. Those that
/// report on stored records hold the records as the store gave them; the
/// payload is made of them when the frame is written.
#[derive(Debug, Clone, PartialEq, Eq)]
pub enum Outbound {
    /// The handshake succeeded.
    AuthSuccess,
    /// The verifier turned the token down.
    InvalidToken,
    /// The first frame was tagged `auth` but its payload was no token.
    MalformedAuth,
    /// A message was posted; `record` is the message as stored.
    MessageCreated { record: MessageRow },
    MessageUpdated(WsMessageUpdated),
    MessageDeleted(WsMessageDeleted),
    ReactionUpdated(WsReactionUpdated),
    /// `user` is typing in the channel.
    UserTyping { channel_id: Uuid, user: UserRow },
    /// The occupants of a voice channel, as the store lists them now.
    VoiceStateUpdate { channel_id: String, occupants: Vec<VoiceStateRow> },
    /// A session description passed on from `from_user_id`.
    SignalSdp { from_user_id: String, signal: WsSignalSdp },
    /// A connectivity candidate passed on from `from_user_id`.
    SignalIce { from_user_id: String, signal: WsSignalIce },
}

impl Outbound {
    /// The tag of this message.
    pub open spec fn tag(&self) -> Seq<char> {
        match self {
            Outbound::AuthSuccess => "auth_success"@,
            Outbound::InvalidToken => "error"@,
            Outbound::MalformedAuth => "error"@,
            Outbound::MessageCreated { .. } => "message_created"@,
            Outbound::MessageUpdated(_) => "message_updated"@,
            Outbound::MessageDeleted(_) => "message_deleted"@,
            Outbound::ReactionUpdated(_) => "reaction_updated"@,
            Outbound::UserTyping { .. } => "user_typing"@,
            Outbound::VoiceStateUpdate { .. } => "voice_state_update"@,
            Outbound::SignalSdp { .. } => "signal_sdp"@,
            Outbound::SignalIce { .. } => "signal_ice"@,
        }
    }

    /// The payload of this message as JSON text; `None` where a record it
    /// reports on holds an id that is no UUID, so that no frame can be made.
    pub open spec fn payload(&self) -> Option<Seq<char>> {
        match *self {
            Outbound::AuthSuccess => Some("null"@),
            Outbound::InvalidToken => Some(
                object(seq![member("message"@, quoted("Invalid token"@))]),
            ),
            Outbound::MalformedAuth => Some(
                object(seq![member("message"@, quoted("Malformed auth payload"@))]),
            ),
            Outbound::MessageCreated { record } => match Message::fresh_wire(record) {
                Some(message) => Some(object(seq![member("message"@, message)])),
                None => None,
            },
            Outbound::MessageUpdated(p) => Some(p.wire()),
            Outbound::MessageDeleted(p) => Some(p.wire()),
            Outbound::ReactionUpdated(p) => Some(p.wire()),
            Outbound::UserTyping { channel_id, user } => match UserPublic::of_row(user) {
                Some(user) => Some(WsUserTyping { channel_id, user }.wire()),
                None => None,
            },
            Outbound::VoiceStateUpdate { channel_id, occupants } => match (
                Uuid::parsed(channel_id@),
                VoiceState::of_rows(occupants@),
            ) {
                (Some(channel_id), Some(states)) => Some(
                    object(WsVoiceStateUpdate::members_of(channel_id, states)),
                ),
                _ => None,
            },
            Outbound::SignalSdp { from_user_id, signal } => match Uuid::parsed(from_user_id@) {
                Some(from) => Some(
                    WsSignalSdpRelay {
                        from_user_id: from,
                        target_user_id: signal.target_user_id,
                        sdp: signal.sdp,
                        sdp_type: signal.sdp_type,
                    }.wire(),
                ),
                None => None,
            },
            Outbound::SignalIce { from_user_id, signal } => match Uuid::parsed(from_user_id@) {
                Some(from) => Some(
                    WsSignalIceRelay {
                        from_user_id: from,
                        target_user_id: signal.target_user_id,
                        candidate: signal.candidate,
                        sdp_mid: signal.sdp_mid,
                        sdp_mline_index: signal.sdp_mline_index,
                    }.wire(),
                ),
                None => None,
            },
        }
    }

    /// The text of the frame that carries this message.
    pub open spec fn wire(&self) -> Option<Seq<char>> {
        match self.payload() {
            Some(payload) => Some(WsEnvelope::frame(self.tag(), payload)),
            None => None,
        }
    }

    /// Renders the payload.
    fn write_payload(&self) -> (r: Option<String>)
        ensures
            match r {
                Some(text) => self.payload() == Some(text@),
                None => self.payload() is None,
            },
    {
        match self {
            Outbound::AuthSuccess => Some(String::from_str("null")),
            Outbound::InvalidToken => Some(WsError::invalid_token().to_json()),
            Outbound::MalformedAuth => Some(WsError::malformed_auth().to_json()),
            Outbound::MessageCreated { record } => match Message::from_row(
                record,
                Vec::new(),
                Vec::new(),
            ) {
                Some(message) => {
                    assert(message.wire() == Message::fresh_wire(*record)->0);
                    Some(WsMessageCreated { message }.to_json())
                },
                None => None,
            },
            Outbound::MessageUpdated(p) => Some(p.to_json()),
            Outbound::MessageDeleted(p) => Some(p.to_json()),
            Outbound::ReactionUpdated(p) => Some(p.to_json()),
            Outbound::UserTyping { channel_id, user } => match UserPublic::from_row(user) {
                Some(user) => Some(WsUserTyping { channel_id: channel_id.clone(), user }.to_json()),
                None => None,
            },
            Outbound::VoiceStateUpdate { channel_id, occupants } => match (
                Uuid::parse_str(channel_id.as_str()),
                VoiceState::from_rows(occupants),
            ) {
                (Some(channel_id), Some(voice_states)) => Some(
                    WsVoiceStateUpdate { channel_id, voice_states }.to_json(),
                ),
                _ => None,
            },
            Outbound::SignalSdp { from_user_id, signal } => match Uuid::parse_str(
                from_user_id.as_str(),
            ) {
                Some(from) => Some(
                    WsSignalSdpRelay {
                        from_user_id: from,
                        target_user_id: signal.target_user_id.clone(),
                        sdp: signal.sdp.clone(),
                        sdp_type: signal.sdp_type.clone(),
                    }.to_json(),
                ),
                None => None,
            },
            Outbound::SignalIce { from_user_id, signal } => match Uuid::parse_str(
                from_user_id.as_str(),
            ) {
                Some(from) => Some(
                    WsSignalIceRelay {
                        from_user_id: from,
                        target_user_id: signal.target_user_id.clone(),
                        candidate: signal.candidate.clone(),
                        sdp_mid: clone_optional(&signal.sdp_mid),
                        sdp_mline_index: signal.sdp_mline_index,
                    }.to_json(),
                ),
                None => None,
            },
        }
    }

    /// The tag of this message.
    pub fn msg_type(&self) -> (r: &'static str)
        ensures
            r@ == self.tag(),
    {
        match self {
            Outbound::AuthSuccess => "auth_success",
            Outbound::InvalidToken => "error",
            Outbound::MalformedAuth => "error",
            Outbound::MessageCreated { .. } => "message_created",
            Outbound::MessageUpdated(_) => "message_updated",
            Outbound::MessageDeleted(_) => "message_deleted",
            Outbound::ReactionUpdated(_) => "reaction_updated",
            Outbound::UserTyping { .. } => "user_typing",
            Outbound::VoiceStateUpdate { .. } => "voice_state_update",
            Outbound::SignalSdp { .. } => "signal_sdp",
            Outbound::SignalIce { .. } => "signal_ice",
        }
    }

    /// Takes this message apart into the tag and the rendered payload of its
    /// frame.
    pub fn envelope(&self) -> (r: Option<WsEnvelope>)
        ensures
            match r {
                Some(e) => e.msg_type@ == self.tag() && self.payload() == Some(e.payload@),
                None => self.payload() is None,
            },
    {
        match self.write_payload() {
            Some(payload) => Some(
                WsEnvelope { msg_type: String::from_str(self.msg_type()), payload },
            ),
            None => None,
        }
    }

    /// Renders the frame that carries this message.
    pub fn to_text(&self) -> (r: Option<String>)
        ensures
            match r {
                Some(text) => self.wire() == Some(text@),
                None => self.wire() is None,
            },
    {
        match self.envelope() {
            Some(envelope) => Some(envelope.to_text()),
            None => None,
        }
    }
}

} // verus!
