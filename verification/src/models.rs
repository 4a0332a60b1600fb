//! The records that clients see, and the JSON text that those the hub sends
//! take on the wire. Objects are written with their members in key order.

use vstd::prelude::*;
use crate::db::{AttachmentRow, ChannelRow, DmConversationRow, DmMessageRow, MemberRow, MessageRow, ReactionGroupRow, ServerRow, UserRow, VoiceStateRow};
use crate::ids::Uuid;
use crate::json::{array, bool_text, integer_text, member, object, optional_integer, optional_quoted, quoted};
use crate::json::{json_integer, json_quote, write_array, write_bool, write_member, write_object, write_optional, write_optional_integer};
use crate::text::{clone_optional, views};

verus! {

/// A user with the settings only the user sees.
#[derive(Debug, Clone, PartialEq, Eq)]
pub struct User {
    pub id: Uuid,
    pub username: String,
    pub avatar_url: Option<String>,
    pub theme: String,
    pub language: String,
    pub notifications_enabled: bool,
    pub created_at: String,
    pub updated_at: String,
}

/// Status and presence of a user.
#[derive(Debug, Clone, PartialEq, Eq)]
pub struct UserStatus {
    pub user_id: Uuid,
    /// One of `online`, `idle`, `dnd`, `offline`.
    pub status: String,
    pub custom_text: Option<String>,
    pub activity_type: Option<String>,
    pub activity_name: Option<String>,
    pub last_seen: String,
    pub updated_at: String,
}

impl UserStatus {
    /// The rendered members of this record's JSON object, in key order.
    pub open spec fn members(&self) -> Seq<Seq<char>> {
        seq![
            member("activity_name"@, optional_quoted(self.activity_name)),
            member("activity_type"@, optional_quoted(self.activity_type)),
            member("custom_text"@, optional_quoted(self.custom_text)),
            member("last_seen"@, quoted(self.last_seen@)),
            member("status"@, quoted(self.status@)),
            member("updated_at"@, quoted(self.updated_at@)),
            member("user_id"@, quoted(self.user_id.text()@)),
        ]
    }

    /// The JSON text of this record.
    pub open spec fn wire(&self) -> Seq<char> {
        object(self.members())
    }

    /// Renders this record as JSON.
    pub fn to_json(&self) -> (r: String)
        ensures
            r@ == self.wire(),
    {
        let mut members: Vec<String> = Vec::new();
        members.push(write_member("activity_name", write_optional(&self.activity_name).as_str()));
        members.push(write_member("activity_type", write_optional(&self.activity_type).as_str()));
        members.push(write_member("custom_text", write_optional(&self.custom_text).as_str()));
        members.push(write_member("last_seen", json_quote(self.last_seen.as_str()).as_str()));
        members.push(write_member("status", json_quote(self.status.as_str()).as_str()));
        members.push(write_member("updated_at", json_quote(self.updated_at.as_str()).as_str()));
        members.push(write_member("user_id", json_quote(self.user_id.as_str()).as_str()));
        assert(views(members@) =~= self.members());
        write_object(&members)
    }

    /// The JSON text of a record that may be missing: `null` where it is.
    pub open spec fn wire_optional(record: Option<UserStatus>) -> Seq<char> {
        match record {
            Some(record) => record.wire(),
            None => "null"@,
        }
    }

    /// Renders a record that may be missing.
    pub fn write_optional(record: &Option<UserStatus>) -> (r: String)
        ensures
            r@ == UserStatus::wire_optional(*record),
    {
        match record {
            Some(record) => record.to_json(),
            None => String::from_str("null"),
        }
    }
}

/// What everyone may see of a user: no password hash, no settings.
#[derive(Debug, Clone, PartialEq, Eq)]
pub struct UserPublic {
    pub id: Uuid,
    pub username: String,
    pub avatar_url: Option<String>,
    pub status: Option<UserStatus>,
}

impl UserPublic {
    /// The rendered members of this record's JSON object, in key order.
    pub open spec fn members(&self) -> Seq<Seq<char>> {
        seq![
            member("avatar_url"@, optional_quoted(self.avatar_url)),
            member("id"@, quoted(self.id.text()@)),
            member("status"@, UserStatus::wire_optional(self.status)),
            member("username"@, quoted(self.username@)),
        ]
    }

    /// The JSON text of this record.
    pub open spec fn wire(&self) -> Seq<char> {
        object(self.members())
    }

    /// Renders this record as JSON.
    pub fn to_json(&self) -> (r: String)
        ensures
            r@ == self.wire(),
    {
        let mut members: Vec<String> = Vec::new();
        members.push(write_member("avatar_url", write_optional(&self.avatar_url).as_str()));
        members.push(write_member("id", json_quote(self.id.as_str()).as_str()));
        members.push(write_member("status", UserStatus::write_optional(&self.status).as_str()));
        members.push(write_member("username", json_quote(self.username.as_str()).as_str()));
        assert(views(members@) =~= self.members());
        write_object(&members)
    }

    /// The JSON text of a record that may be missing: `null` where it is.
    pub open spec fn wire_optional(record: Option<UserPublic>) -> Seq<char> {
        match record {
            Some(record) => record.wire(),
            None => "null"@,
        }
    }

    /// Renders a record that may be missing.
    pub fn write_optional(record: &Option<UserPublic>) -> (r: String)
        ensures
            r@ == UserPublic::wire_optional(*record),
    {
        match record {
            Some(record) => record.to_json(),
            None => String::from_str("null"),
        }
    }
}

/// A room: the grouping that gates who sees which messages and voice channels.
#[derive(Debug, Clone, PartialEq, Eq)]
pub struct Server {
    pub id: Uuid,
    pub name: String,
    pub icon_url: Option<String>,
    pub owner_id: Uuid,
    pub created_at: String,
    pub updated_at: String,
}

/// The body of a request to create a server.
#[derive(Debug, Clone, PartialEq, Eq)]
pub struct CreateServerRequest {
    pub name: String,
    pub icon_url: Option<String>,
}

/// A member of a server.
#[derive(Debug, Clone, PartialEq, Eq)]
pub struct ServerMember {
    pub user_id: Uuid,
    pub server_id: Uuid,
    pub role: String,
    pub joined_at: String,
    pub username: String,
    pub avatar_url: Option<String>,
    pub status: Option<UserStatus>,
}

/// A text or voice channel of a server.
#[derive(Debug, Clone, PartialEq, Eq)]
pub struct Channel {
    pub id: Uuid,
    pub server_id: Uuid,
    pub name: String,
    /// On the wire this member is named `type`.
    pub channel_type: String,
    pub position: i32,
    pub created_at: String,
    pub updated_at: String,
}

/// The body of a request to create a channel.
#[derive(Debug, Clone, PartialEq, Eq)]
pub struct CreateChannelRequest {
    pub name: String,
    /// On the wire this member is named `type`.
    pub channel_type: String,
}

/// A file attached to a message.
#[derive(Debug, Clone, PartialEq, Eq)]
pub struct Attachment {
    pub id: Uuid,
    pub message_id: Uuid,
    pub file_url: String,
    pub file_name: String,
    pub mime_type: String,
    pub size_bytes: Option<i64>,
    pub created_at: String,
}

impl Attachment {
    /// The rendered members of this record's JSON object, in key order.
    pub open spec fn members(&self) -> Seq<Seq<char>> {
        seq![
            member("created_at"@, quoted(self.created_at@)),
            member("file_name"@, quoted(self.file_name@)),
            member("file_url"@, quoted(self.file_url@)),
            member("id"@, quoted(self.id.text()@)),
            member("message_id"@, quoted(self.message_id.text()@)),
            member("mime_type"@, quoted(self.mime_type@)),
            member("size_bytes"@, optional_integer(match self.size_bytes { Some(n) => Some(n as int), None => None })),
        ]
    }

    /// The JSON text of this record.
    pub open spec fn wire(&self) -> Seq<char> {
        object(self.members())
    }

    /// Renders this record as JSON.
    pub fn to_json(&self) -> (r: String)
        ensures
            r@ == self.wire(),
    {
        let mut members: Vec<String> = Vec::new();
        members.push(write_member("created_at", json_quote(self.created_at.as_str()).as_str()));
        members.push(write_member("file_name", json_quote(self.file_name.as_str()).as_str()));
        members.push(write_member("file_url", json_quote(self.file_url.as_str()).as_str()));
        members.push(write_member("id", json_quote(self.id.as_str()).as_str()));
        members.push(write_member("message_id", json_quote(self.message_id.as_str()).as_str()));
        members.push(write_member("mime_type", json_quote(self.mime_type.as_str()).as_str()));
        members.push(write_member("size_bytes", write_optional_integer(match self.size_bytes { Some(n) => Some(n as i128), None => None }).as_str()));
        assert(views(members@) =~= self.members());
        write_object(&members)
    }

    /// The JSON texts of several records, one for one.
    pub open spec fn wire_all(records: Seq<Attachment>) -> Seq<Seq<char>> {
        records.map_values(|record: Attachment| record.wire())
    }

    /// Renders several records as a JSON array.
    pub fn write_all(records: &Vec<Attachment>) -> (r: String)
        ensures
            r@ == array(Attachment::wire_all(records@)),
    {
        let mut items: Vec<String> = Vec::new();
        let mut i: usize = 0;
        while i < records.len()
            invariant
                i <= records.len(),
                items@.len() == i,
                forall|j: int| 0 <= j < i ==> (#[trigger] items@[j])@ == records@[j].wire(),
            decreases records.len() - i,
        {
            let item = records[i].to_json();
            items.push(item);
            i += 1;
        }
        assert(views(items@) =~= Attachment::wire_all(records@));
        write_array(&items)
    }
}

/// One user's reaction to a message.
#[derive(Debug, Clone, PartialEq, Eq)]
pub struct Reaction {
    pub message_id: Uuid,
    pub user_id: Uuid,
    pub emoji: String,
    pub created_at: String,
}

/// The reactions to a message under one emoji, counted for display.
#[derive(Debug, Clone, PartialEq, Eq)]
pub struct ReactionGroup {
    pub emoji: String,
    pub count: i32,
    /// Whether the viewer is among those who reacted.
    pub me: bool,
}

impl ReactionGroup {
    /// The rendered members of this record's JSON object, in key order.
    pub open spec fn members(&self) -> Seq<Seq<char>> {
        seq![
            member("count"@, integer_text(self.count as int)),
            member("emoji"@, quoted(self.emoji@)),
            member("me"@, bool_text(self.me)),
        ]
    }

    /// The JSON text of this record.
    pub open spec fn wire(&self) -> Seq<char> {
        object(self.members())
    }

    /// Renders this record as JSON.
    pub fn to_json(&self) -> (r: String)
        ensures
            r@ == self.wire(),
    {
        let mut members: Vec<String> = Vec::new();
        members.push(write_member("count", json_integer(self.count as i128).as_str()));
        members.push(write_member("emoji", json_quote(self.emoji.as_str()).as_str()));
        members.push(write_member("me", write_bool(self.me).as_str()));
        assert(views(members@) =~= self.members());
        write_object(&members)
    }

    /// The JSON texts of several records, one for one.
    pub open spec fn wire_all(records: Seq<ReactionGroup>) -> Seq<Seq<char>> {
        records.map_values(|record: ReactionGroup| record.wire())
    }

    /// Renders several records as a JSON array.
    pub fn write_all(records: &Vec<ReactionGroup>) -> (r: String)
        ensures
            r@ == array(ReactionGroup::wire_all(records@)),
    {
        let mut items: Vec<String> = Vec::new();
        let mut i: usize = 0;
        while i < records.len()
            invariant
                i <= records.len(),
                items@.len() == i,
                forall|j: int| 0 <= j < i ==> (#[trigger] items@[j])@ == records@[j].wire(),
            decreases records.len() - i,
        {
            let item = records[i].to_json();
            items.push(item);
            i += 1;
        }
        assert(views(items@) =~= ReactionGroup::wire_all(records@));
        write_array(&items)
    }
}

/// A chat message with its author, attachments and reactions.
#[derive(Debug, Clone, PartialEq, Eq)]
pub struct Message {
    pub id: Uuid,
    pub channel_id: Uuid,
    pub author_id: Uuid,
    pub content: Option<String>,
    pub pinned: bool,
    pub created_at: String,
    pub edited_at: Option<String>,
    pub author: Option<UserPublic>,
    pub attachments: Vec<Attachment>,
    pub reactions: Vec<ReactionGroup>,
}

impl Message {
    /// The rendered members of the JSON object of a record made of these
    /// parts, in key order.
    pub open spec fn members_of(
        id: Uuid,
        channel_id: Uuid,
        author_id: Uuid,
        content: Option<String>,
        pinned: bool,
        created_at: String,
        edited_at: Option<String>,
        author: Option<UserPublic>,
        attachments: Seq<Attachment>,
        reactions: Seq<ReactionGroup>,
    ) -> Seq<Seq<char>> {
        seq![
            member("attachments"@, array(Attachment::wire_all(attachments))),
            member("author"@, UserPublic::wire_optional(author)),
            member("author_id"@, quoted(author_id.text()@)),
            member("channel_id"@, quoted(channel_id.text()@)),
            member("content"@, optional_quoted(content)),
            member("created_at"@, quoted(created_at@)),
            member("edited_at"@, optional_quoted(edited_at)),
            member("id"@, quoted(id.text()@)),
            member("pinned"@, bool_text(pinned)),
            member("reactions"@, array(ReactionGroup::wire_all(reactions))),
        ]
    }

    /// The rendered members of this record's JSON object, in key order.
    pub open spec fn members(&self) -> Seq<Seq<char>> {
        Message::members_of(
            self.id,
            self.channel_id,
            self.author_id,
            self.content,
            self.pinned,
            self.created_at,
            self.edited_at,
            self.author,
            self.attachments@,
            self.reactions@,
        )
    }

    /// The JSON text of this record.
    pub open spec fn wire(&self) -> Seq<char> {
        object(self.members())
    }

    /// Renders this record as JSON.
    pub fn to_json(&self) -> (r: String)
        ensures
            r@ == self.wire(),
    {
        let mut members: Vec<String> = Vec::new();
        members.push(write_member("attachments", Attachment::write_all(&self.attachments).as_str()));
        members.push(write_member("author", UserPublic::write_optional(&self.author).as_str()));
        members.push(write_member("author_id", json_quote(self.author_id.as_str()).as_str()));
        members.push(write_member("channel_id", json_quote(self.channel_id.as_str()).as_str()));
        members.push(write_member("content", write_optional(&self.content).as_str()));
        members.push(write_member("created_at", json_quote(self.created_at.as_str()).as_str()));
        members.push(write_member("edited_at", write_optional(&self.edited_at).as_str()));
        members.push(write_member("id", json_quote(self.id.as_str()).as_str()));
        members.push(write_member("pinned", write_bool(self.pinned).as_str()));
        members.push(write_member("reactions", ReactionGroup::write_all(&self.reactions).as_str()));
        assert(views(members@) =~= self.members());
        write_object(&members)
    }
}

/// The body of a request to post a message.
#[derive(Debug, Clone, PartialEq, Eq)]
pub struct CreateMessageRequest {
    pub content: Option<String>,
}

/// One occupant of a voice channel.
#[derive(Debug, Clone, PartialEq, Eq)]
pub struct VoiceState {
    pub user_id: Uuid,
    pub channel_id: Uuid,
    pub muted: bool,
    pub deafened: bool,
    pub joined_at: String,
    pub username: Option<String>,
    pub avatar_url: Option<String>,
}

impl VoiceState {
    /// The rendered members of this record's JSON object, in key order.
    pub open spec fn members(&self) -> Seq<Seq<char>> {
        seq![
            member("avatar_url"@, optional_quoted(self.avatar_url)),
            member("channel_id"@, quoted(self.channel_id.text()@)),
            member("deafened"@, bool_text(self.deafened)),
            member("joined_at"@, quoted(self.joined_at@)),
            member("muted"@, bool_text(self.muted)),
            member("user_id"@, quoted(self.user_id.text()@)),
            member("username"@, optional_quoted(self.username)),
        ]
    }

    /// The JSON text of this record.
    pub open spec fn wire(&self) -> Seq<char> {
        object(self.members())
    }

    /// Renders this record as JSON.
    pub fn to_json(&self) -> (r: String)
        ensures
            r@ == self.wire(),
    {
        let mut members: Vec<String> = Vec::new();
        members.push(write_member("avatar_url", write_optional(&self.avatar_url).as_str()));
        members.push(write_member("channel_id", json_quote(self.channel_id.as_str()).as_str()));
        members.push(write_member("deafened", write_bool(self.deafened).as_str()));
        members.push(write_member("joined_at", json_quote(self.joined_at.as_str()).as_str()));
        members.push(write_member("muted", write_bool(self.muted).as_str()));
        members.push(write_member("user_id", json_quote(self.user_id.as_str()).as_str()));
        members.push(write_member("username", write_optional(&self.username).as_str()));
        assert(views(members@) =~= self.members());
        write_object(&members)
    }

    /// The JSON texts of several records, one for one.
    pub open spec fn wire_all(records: Seq<VoiceState>) -> Seq<Seq<char>> {
        records.map_values(|record: VoiceState| record.wire())
    }

    /// Renders several records as a JSON array.
    pub fn write_all(records: &Vec<VoiceState>) -> (r: String)
        ensures
            r@ == array(VoiceState::wire_all(records@)),
    {
        let mut items: Vec<String> = Vec::new();
        let mut i: usize = 0;
        while i < records.len()
            invariant
                i <= records.len(),
                items@.len() == i,
                forall|j: int| 0 <= j < i ==> (#[trigger] items@[j])@ == records@[j].wire(),
            decreases records.len() - i,
        {
            let item = records[i].to_json();
            items.push(item);
            i += 1;
        }
        assert(views(items@) =~= VoiceState::wire_all(records@));
        write_array(&items)
    }
}

/// The body of a request to register or to log in.
#[derive(Debug, Clone, PartialEq, Eq)]
pub struct AuthRequest {
    pub username: String,
    pub password: String,
}

/// The answer to a successful registration or login.
#[derive(Debug, Clone, PartialEq, Eq)]
pub struct AuthResponse {
    pub token: String,
    pub user: User,
}

/// The body of a request to change one's own settings; a missing member stays as it is.
#[derive(Debug, Clone, PartialEq, Eq)]
pub struct UpdateUserRequest {
    pub username: Option<String>,
    pub avatar_url: Option<String>,
    pub theme: Option<String>,
    pub language: Option<String>,
    pub notifications_enabled: Option<bool>,
}

/// A direct-message conversation between two users.
#[derive(Debug, Clone, PartialEq, Eq)]
pub struct DmConversation {
    pub id: Uuid,
    pub user1_id: Uuid,
    pub user2_id: Uuid,
    pub other_user: UserPublic,
    pub last_message: Option<DmMessage>,
    pub created_at: String,
    pub updated_at: String,
}

/// A direct message.
#[derive(Debug, Clone, PartialEq, Eq)]
pub struct DmMessage {
    pub id: Uuid,
    pub conversation_id: Uuid,
    pub author_id: Uuid,
    pub content: Option<String>,
    pub created_at: String,
    pub edited_at: Option<String>,
    pub author: Option<UserPublic>,
    pub attachments: Vec<Attachment>,
    pub reactions: Vec<ReactionGroup>,
}

/// The body of a request to open a conversation.
#[derive(Debug, Clone, PartialEq, Eq)]
pub struct CreateDmRequest {
    pub recipient_username: String,
}

/// The body of a request to send a direct message.
#[derive(Debug, Clone, PartialEq, Eq)]
pub struct CreateDmMessageRequest {
    pub content: Option<String>,
}

impl User {
    /// The user that a stored row describes; `None` where its id is no UUID.
    pub open spec fn of_row(row: UserRow) -> Option<User> {
        match Uuid::parsed(row.id@) {
            Some(id) => Some(
                User {
                    id,
                    username: row.username,
                    avatar_url: row.avatar_url,
                    theme: row.theme,
                    language: row.language,
                    notifications_enabled: row.notifications_enabled,
                    created_at: row.created_at,
                    updated_at: row.updated_at,
                },
            ),
            None => None,
        }
    }

    /// Turns a stored row into the user it describes.
    pub fn from_row(row: &UserRow) -> (r: Option<User>)
        ensures
            r == User::of_row(*row),
    {
        match Uuid::parse_str(row.id.as_str()) {
            Some(id) => Some(
                User {
                    id,
                    username: row.username.clone(),
                    avatar_url: clone_optional(&row.avatar_url),
                    theme: row.theme.clone(),
                    language: row.language.clone(),
                    notifications_enabled: row.notifications_enabled,
                    created_at: row.created_at.clone(),
                    updated_at: row.updated_at.clone(),
                },
            ),
            None => None,
        }
    }
}

impl UserPublic {
    /// What everyone may see of a stored user, without a status; `None`
    /// where the stored id is no UUID.
    pub open spec fn of_row(row: UserRow) -> Option<UserPublic> {
        match Uuid::parsed(row.id@) {
            Some(id) => Some(
                UserPublic { id, username: row.username, avatar_url: row.avatar_url, status: None },
            ),
            None => None,
        }
    }

    /// Turns a stored user into what everyone may see of it.
    pub fn from_row(row: &UserRow) -> (r: Option<UserPublic>)
        ensures
            r == UserPublic::of_row(*row),
    {
        match Uuid::parse_str(row.id.as_str()) {
            Some(id) => Some(
                UserPublic { id, username: row.username.clone(), avatar_url: clone_optional(&row.avatar_url), status: None },
            ),
            None => None,
        }
    }
}

impl Server {
    /// The server that a stored row describes; `None` where one of its ids is
    /// no UUID.
    pub open spec fn of_row(row: ServerRow) -> Option<Server> {
        match (Uuid::parsed(row.id@), Uuid::parsed(row.owner_id@)) {
            (Some(id), Some(owner_id)) => Some(
                Server {
                    id,
                    name: row.name,
                    icon_url: row.icon_url,
                    owner_id,
                    created_at: row.created_at,
                    updated_at: row.updated_at,
                },
            ),
            _ => None,
        }
    }

    /// Turns a stored row into the server it describes.
    pub fn from_row(row: &ServerRow) -> (r: Option<Server>)
        ensures
            r == Server::of_row(*row),
    {
        match (Uuid::parse_str(row.id.as_str()), Uuid::parse_str(row.owner_id.as_str())) {
            (Some(id), Some(owner_id)) => Some(
                Server {
                    id,
                    name: row.name.clone(),
                    icon_url: clone_optional(&row.icon_url),
                    owner_id,
                    created_at: row.created_at.clone(),
                    updated_at: row.updated_at.clone(),
                },
            ),
            _ => None,
        }
    }
}

impl ServerMember {
    /// The member that a stored row describes, with the status given; `None`
    /// where one of the row's ids is no UUID.
    pub open spec fn of_row(row: MemberRow, status: Option<UserStatus>) -> Option<ServerMember> {
        match (Uuid::parsed(row.user_id@), Uuid::parsed(row.server_id@)) {
            (Some(user_id), Some(server_id)) => Some(
                ServerMember {
                    user_id,
                    server_id,
                    role: row.role,
                    joined_at: row.joined_at,
                    username: row.username,
                    avatar_url: row.avatar_url,
                    status,
                },
            ),
            _ => None,
        }
    }

    /// Turns a stored membership into the member it describes.
    pub fn from_row(row: &MemberRow, status: Option<UserStatus>) -> (r: Option<ServerMember>)
        ensures
            r == ServerMember::of_row(*row, status),
    {
        match (Uuid::parse_str(row.user_id.as_str()), Uuid::parse_str(row.server_id.as_str())) {
            (Some(user_id), Some(server_id)) => Some(
                ServerMember {
                    user_id,
                    server_id,
                    role: row.role.clone(),
                    joined_at: row.joined_at.clone(),
                    username: row.username.clone(),
                    avatar_url: clone_optional(&row.avatar_url),
                    status,
                },
            ),
            _ => None,
        }
    }
}

impl Channel {
    /// The channel that a stored row describes; `None` where one of its ids
    /// is no UUID.
    pub open spec fn of_row(row: ChannelRow) -> Option<Channel> {
        match (Uuid::parsed(row.id@), Uuid::parsed(row.server_id@)) {
            (Some(id), Some(server_id)) => Some(
                Channel {
                    id,
                    server_id,
                    name: row.name,
                    channel_type: row.channel_type,
                    position: row.position,
                    created_at: row.created_at,
                    updated_at: row.updated_at,
                },
            ),
            _ => None,
        }
    }

    /// Turns a stored row into the channel it describes.
    pub fn from_row(row: &ChannelRow) -> (r: Option<Channel>)
        ensures
            r == Channel::of_row(*row),
    {
        match (Uuid::parse_str(row.id.as_str()), Uuid::parse_str(row.server_id.as_str())) {
            (Some(id), Some(server_id)) => Some(
                Channel {
                    id,
                    server_id,
                    name: row.name.clone(),
                    channel_type: row.channel_type.clone(),
                    position: row.position,
                    created_at: row.created_at.clone(),
                    updated_at: row.updated_at.clone(),
                },
            ),
            _ => None,
        }
    }
}

impl Attachment {
    /// The attachment that a stored row describes; `None` where one of its
    /// ids is no UUID.
    pub open spec fn of_row(row: AttachmentRow) -> Option<Attachment> {
        match (Uuid::parsed(row.id@), Uuid::parsed(row.message_id@)) {
            (Some(id), Some(message_id)) => Some(
                Attachment {
                    id,
                    message_id,
                    file_url: row.file_url,
                    file_name: row.file_name,
                    mime_type: row.mime_type,
                    size_bytes: row.size_bytes,
                    created_at: row.created_at,
                },
            ),
            _ => None,
        }
    }

    /// Turns a stored row into the attachment it describes.
    pub fn from_row(row: &AttachmentRow) -> (r: Option<Attachment>)
        ensures
            r == Attachment::of_row(*row),
    {
        match (Uuid::parse_str(row.id.as_str()), Uuid::parse_str(row.message_id.as_str())) {
            (Some(id), Some(message_id)) => Some(
                Attachment {
                    id,
                    message_id,
                    file_url: row.file_url.clone(),
                    file_name: row.file_name.clone(),
                    mime_type: row.mime_type.clone(),
                    size_bytes: row.size_bytes,
                    created_at: row.created_at.clone(),
                },
            ),
            _ => None,
        }
    }
}

impl ReactionGroup {
    /// The counted reactions that a stored row describes.
    pub open spec fn of_row(row: ReactionGroupRow) -> ReactionGroup {
        ReactionGroup { emoji: row.emoji, count: row.count, me: row.me }
    }

    /// Turns a stored row into the counted reactions it describes.
    pub fn from_row(row: &ReactionGroupRow) -> (r: ReactionGroup)
        ensures
            r == ReactionGroup::of_row(*row),
    {
        ReactionGroup { emoji: row.emoji.clone(), count: row.count, me: row.me }
    }
}

impl Message {
    /// The message that a stored row describes, with the attachments and
    /// reactions given; `None` where one of the row's ids is no UUID. The
    /// author is taken from the row.
    pub open spec fn of_row(
        row: MessageRow,
        attachments: Vec<Attachment>,
        reactions: Vec<ReactionGroup>,
    ) -> Option<Message> {
        match (Uuid::parsed(row.id@), Uuid::parsed(row.channel_id@), Uuid::parsed(row.author_id@)) {
            (Some(id), Some(channel_id), Some(author_id)) => Some(
                Message {
                    id,
                    channel_id,
                    author_id,
                    content: row.content,
                    pinned: row.pinned,
                    created_at: row.created_at,
                    edited_at: row.edited_at,
                    author: Some(
                        UserPublic {
                            id: author_id,
                            username: row.author_username,
                            avatar_url: row.author_avatar_url,
                            status: None,
                        },
                    ),
                    attachments,
                    reactions,
                },
            ),
            _ => None,
        }
    }

    /// Turns a stored row into the message it describes.
    pub fn from_row(
        row: &MessageRow,
        attachments: Vec<Attachment>,
        reactions: Vec<ReactionGroup>,
    ) -> (r: Option<Message>)
        ensures
            r == Message::of_row(*row, attachments, reactions),
    {
        match (
            Uuid::parse_str(row.id.as_str()),
            Uuid::parse_str(row.channel_id.as_str()),
            Uuid::parse_str(row.author_id.as_str()),
        ) {
            (Some(id), Some(channel_id), Some(author_id)) => {
                let author = UserPublic {
                    id: author_id.clone(),
                    username: row.author_username.clone(),
                    avatar_url: clone_optional(&row.author_avatar_url),
                    status: None,
                };
                Some(
                    Message {
                        id,
                        channel_id,
                        author_id,
                        content: clone_optional(&row.content),
                        pinned: row.pinned,
                        created_at: row.created_at.clone(),
                        edited_at: clone_optional(&row.edited_at),
                        author: Some(author),
                        attachments,
                        reactions,
                    },
                )
            },
            _ => None,
        }
    }

    /// The JSON text of a message as it stands right after it was stored:
    /// taken from its row, with no attachment and no reaction yet; `None`
    /// where one of the row's ids is no UUID.
    pub open spec fn fresh_wire(row: MessageRow) -> Option<Seq<char>> {
        match (Uuid::parsed(row.id@), Uuid::parsed(row.channel_id@), Uuid::parsed(row.author_id@)) {
            (Some(id), Some(channel_id), Some(author_id)) => Some(
                object(
                    Message::members_of(
                        id,
                        channel_id,
                        author_id,
                        row.content,
                        row.pinned,
                        row.created_at,
                        row.edited_at,
                        Some(
                            UserPublic {
                                id: author_id,
                                username: row.author_username,
                                avatar_url: row.author_avatar_url,
                                status: None,
                            },
                        ),
                        Seq::empty(),
                        Seq::empty(),
                    ),
                ),
            ),
            _ => None,
        }
    }
}

impl VoiceState {
    /// The occupant that a stored row describes; `None` where one of its ids
    /// is no UUID.
    pub open spec fn of_row(row: VoiceStateRow) -> Option<VoiceState> {
        match (Uuid::parsed(row.user_id@), Uuid::parsed(row.channel_id@)) {
            (Some(user_id), Some(channel_id)) => Some(
                VoiceState {
                    user_id,
                    channel_id,
                    muted: row.muted,
                    deafened: row.deafened,
                    joined_at: row.joined_at,
                    username: Some(row.username),
                    avatar_url: row.avatar_url,
                },
            ),
            _ => None,
        }
    }

    /// The occupants that stored rows describe, one for one and in order;
    /// `None` where any row holds an id that is no UUID.
    pub open spec fn of_rows(rows: Seq<VoiceStateRow>) -> Option<Seq<VoiceState>>
        decreases rows.len(),
    {
        if rows.len() == 0 {
            Some(Seq::empty())
        } else {
            match (VoiceState::of_rows(rows.drop_last()), VoiceState::of_row(rows.last())) {
                (Some(before), Some(last)) => Some(before.push(last)),
                _ => None,
            }
        }
    }

    /// Turns a stored row into the occupant it describes.
    pub fn from_row(row: &VoiceStateRow) -> (r: Option<VoiceState>)
        ensures
            r == VoiceState::of_row(*row),
    {
        match (Uuid::parse_str(row.user_id.as_str()), Uuid::parse_str(row.channel_id.as_str())) {
            (Some(user_id), Some(channel_id)) => Some(
                VoiceState {
                    user_id,
                    channel_id,
                    muted: row.muted,
                    deafened: row.deafened,
                    joined_at: row.joined_at.clone(),
                    username: Some(row.username.clone()),
                    avatar_url: clone_optional(&row.avatar_url),
                },
            ),
            _ => None,
        }
    }

    /// Turns stored rows into the occupants they describe.
    pub fn from_rows(rows: &Vec<VoiceStateRow>) -> (r: Option<Vec<VoiceState>>)
        ensures
            match r {
                Some(states) => VoiceState::of_rows(rows@) == Some(states@),
                None => VoiceState::of_rows(rows@) is None,
            },
    {
        let mut states: Vec<VoiceState> = Vec::new();
        let mut i: usize = 0;
        assert(rows@.take(0) =~= Seq::empty());
        while i < rows.len()
            invariant
                i <= rows.len(),
                VoiceState::of_rows(rows@.take(i as int)) == Some(states@),
            decreases rows.len() - i,
        {
            proof {
                assert(rows@.take(i as int + 1).drop_last() =~= rows@.take(i as int));
                assert(rows@.take(i as int + 1).last() == rows@[i as int]);
            }
            match VoiceState::from_row(&rows[i]) {
                Some(state) => {
                    states.push(state);
                },
                None => {
                    proof {
                        VoiceState::lemma_of_rows_prefix(rows@, i as int + 1);
                    }
                    return None;
                },
            }
            i += 1;
        }
        assert(rows@.take(rows.len() as int) =~= rows@);
        Some(states)
    }

    /// Where the first `n` rows do not all describe an occupant, the whole
    /// list does not either.
    pub proof fn lemma_of_rows_prefix(rows: Seq<VoiceStateRow>, n: int)
        requires
            0 <= n <= rows.len(),
            VoiceState::of_rows(rows.take(n)) is None,
        ensures
            VoiceState::of_rows(rows) is None,
        decreases rows.len() - n,
    {
        if n < rows.len() {
            assert(rows.take(n + 1).drop_last() =~= rows.take(n));
            VoiceState::lemma_of_rows_prefix(rows, n + 1);
        } else {
            assert(rows.take(n) =~= rows);
        }
    }
}

impl DmMessage {
    /// The direct message that a stored row describes, with the attachments
    /// and reactions given; `None` where one of the row's ids is no UUID.
    pub open spec fn of_row(
        row: DmMessageRow,
        attachments: Vec<Attachment>,
        reactions: Vec<ReactionGroup>,
    ) -> Option<DmMessage> {
        match (
            Uuid::parsed(row.id@),
            Uuid::parsed(row.conversation_id@),
            Uuid::parsed(row.author_id@),
        ) {
            (Some(id), Some(conversation_id), Some(author_id)) => Some(
                DmMessage {
                    id,
                    conversation_id,
                    author_id,
                    content: row.content,
                    created_at: row.created_at,
                    edited_at: row.edited_at,
                    author: Some(
                        UserPublic {
                            id: author_id,
                            username: row.author_username,
                            avatar_url: row.author_avatar_url,
                            status: None,
                        },
                    ),
                    attachments,
                    reactions,
                },
            ),
            _ => None,
        }
    }

    /// Turns a stored row into the direct message it describes.
    pub fn from_row(
        row: &DmMessageRow,
        attachments: Vec<Attachment>,
        reactions: Vec<ReactionGroup>,
    ) -> (r: Option<DmMessage>)
        ensures
            r == DmMessage::of_row(*row, attachments, reactions),
    {
        match (
            Uuid::parse_str(row.id.as_str()),
            Uuid::parse_str(row.conversation_id.as_str()),
            Uuid::parse_str(row.author_id.as_str()),
        ) {
            (Some(id), Some(conversation_id), Some(author_id)) => {
                let author = UserPublic {
                    id: author_id.clone(),
                    username: row.author_username.clone(),
                    avatar_url: clone_optional(&row.author_avatar_url),
                    status: None,
                };
                Some(
                    DmMessage {
                        id,
                        conversation_id,
                        author_id,
                        content: clone_optional(&row.content),
                        created_at: row.created_at.clone(),
                        edited_at: clone_optional(&row.edited_at),
                        author: Some(author),
                        attachments,
                        reactions,
                    },
                )
            },
            _ => None,
        }
    }
}

impl DmConversation {
    /// The conversation that a stored row describes, as the other party's
    /// peer sees it, with the last message given; `None` where one of the
    /// row's ids is no UUID.
    pub open spec fn of_row(row: DmConversationRow, last_message: Option<DmMessage>) -> Option<
        DmConversation,
    > {
        match (
            Uuid::parsed(row.id@),
            Uuid::parsed(row.user1_id@),
            Uuid::parsed(row.user2_id@),
            Uuid::parsed(row.other_user_id@),
        ) {
            (Some(id), Some(user1_id), Some(user2_id), Some(other_id)) => Some(
                DmConversation {
                    id,
                    user1_id,
                    user2_id,
                    other_user: UserPublic {
                        id: other_id,
                        username: row.other_username,
                        avatar_url: row.other_avatar_url,
                        status: None,
                    },
                    last_message,
                    created_at: row.created_at,
                    updated_at: row.updated_at,
                },
            ),
            _ => None,
        }
    }

    /// Turns a stored row into the conversation it describes.
    pub fn from_row(row: &DmConversationRow, last_message: Option<DmMessage>) -> (r: Option<
        DmConversation,
    >)
        ensures
            r == DmConversation::of_row(*row, last_message),
    {
        match (
            Uuid::parse_str(row.id.as_str()),
            Uuid::parse_str(row.user1_id.as_str()),
            Uuid::parse_str(row.user2_id.as_str()),
            Uuid::parse_str(row.other_user_id.as_str()),
        ) {
            (Some(id), Some(user1_id), Some(user2_id), Some(other_id)) => Some(
                DmConversation {
                    id,
                    user1_id,
                    user2_id,
                    other_user: UserPublic {
                        id: other_id,
                        username: row.other_username.clone(),
                        avatar_url: clone_optional(&row.other_avatar_url),
                        status: None,
                    },
                    last_message,
                    created_at: row.created_at.clone(),
                    updated_at: row.updated_at.clone(),
                },
            ),
            _ => None,
        }
    }
}

} // verus!
