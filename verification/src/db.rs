//! The records that the store hands to the hub and to the request handlers.

use vstd::prelude::*;

verus! {

/// A row of the users table.
#[derive(Debug, Clone, PartialEq, Eq)]
pub struct UserRow {
    pub id: String,
    pub username: String,
    pub password_hash: String,
    pub avatar_url: Option<String>,
    pub theme: String,
    pub language: String,
    pub notifications_enabled: bool,
    pub created_at: String,
    pub updated_at: String,
}

/// A row of the servers table: one room.
#[derive(Debug, Clone, PartialEq, Eq)]
pub struct ServerRow {
    pub id: String,
    pub name: String,
    pub icon_url: Option<String>,
    pub owner_id: String,
    pub created_at: String,
    pub updated_at: String,
}

/// A membership of a user in a server, joined with the user's name.
#[derive(Debug, Clone, PartialEq, Eq)]
pub struct MemberRow {
    pub user_id: String,
    pub server_id: String,
    pub role: String,
    pub joined_at: String,
    pub username: String,
    pub avatar_url: Option<String>,
}

/// A row of the channels table.
#[derive(Debug, Clone, PartialEq, Eq)]
pub struct ChannelRow {
    pub id: String,
    pub server_id: String,
    pub name: String,
    pub channel_type: String,
    pub position: i32,
    pub created_at: String,
    pub updated_at: String,
}

/// A chat message as stored, joined with its author's name.
#[derive(Debug, Clone, PartialEq, Eq)]
pub struct MessageRow {
    pub id: String,
    pub channel_id: String,
    pub author_id: String,
    pub content: Option<String>,
    pub pinned: bool,
    pub created_at: String,
    pub edited_at: Option<String>,
    pub author_username: String,
    pub author_avatar_url: Option<String>,
}

/// A file attached to a message, as stored.
#[derive(Debug, Clone, PartialEq, Eq)]
pub struct AttachmentRow {
    pub id: String,
    pub message_id: String,
    pub file_url: String,
    pub file_name: String,
    pub mime_type: String,
    pub size_bytes: Option<i64>,
    pub created_at: String,
}

/// The reactions to a message under one emoji, counted.
#[derive(Debug, Clone, PartialEq, Eq)]
pub struct ReactionGroupRow {
    pub emoji: String,
    pub count: i32,
    pub me: bool,
}

/// One occupant of a voice channel, joined with the user's name.
#[derive(Debug, Clone, PartialEq, Eq)]
pub struct VoiceStateRow {
    pub user_id: String,
    pub channel_id: String,
    pub muted: bool,
    pub deafened: bool,
    pub joined_at: String,
    pub username: String,
    pub avatar_url: Option<String>,
}

/// A direct-message conversation as stored, joined with the other party.
#[derive(Debug, Clone, PartialEq, Eq)]
pub struct DmConversationRow {
    pub id: String,
    pub user1_id: String,
    pub user2_id: String,
    pub created_at: String,
    pub updated_at: String,
    pub other_user_id: String,
    pub other_username: String,
    pub other_avatar_url: Option<String>,
}

/// A direct message as stored, joined with its author's name.
#[derive(Debug, Clone, PartialEq, Eq)]
pub struct DmMessageRow {
    pub id: String,
    pub conversation_id: String,
    pub author_id: String,
    pub content: Option<String>,
    pub created_at: String,
    pub edited_at: Option<String>,
    pub author_username: String,
    pub author_avatar_url: Option<String>,
}

} // verus!
