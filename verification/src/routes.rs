//! The rules behind the request handlers: page sizes, who may do what in a
//! direct-message conversation, and what the hub publishes when a message
//! changes through a request.

use vstd::prelude::*;
use crate::db::{AttachmentRow, ReactionGroupRow};
use crate::ids::Uuid;
use crate::json::{field_of, field_wire, json_members, member, object, quoted, text_of};
use crate::json::{find_field, find_text, json_quote, parse_object, write_field, write_member, write_object};
use crate::text::{str_eq, views};
use crate::models::{Attachment, Message, ReactionGroup};
use crate::ws_messages::{Outbound, WsMessageDeleted, WsMessageUpdated, WsReactionUpdated};

verus! {

/// How many messages a page holds when the request does not say.
pub const DEFAULT_PAGE_SIZE: i32 = 50;

/// How many messages a page holds at most.
pub const MAX_PAGE_SIZE: i32 = 100;

/// The query of a request for the messages of a channel.
#[derive(Debug, Clone, PartialEq, Eq)]
pub struct MessageQuery {
    /// How many messages are wanted.
    pub limit: Option<i32>,
    /// Only messages created before this instant are wanted.
    pub before: Option<String>,
}

/// The body of a request to change the text of a message.
#[derive(Debug, Clone, PartialEq, Eq)]
pub struct EditMessageBody {
    pub content: String,
}

/// The body of a request to add or to remove a reaction.
#[derive(Debug, Clone, PartialEq, Eq)]
pub struct ReactionBody {
    pub emoji: String,
}

/// The answer to a request for the server's version.
#[derive(Debug, Clone, PartialEq, Eq)]
pub struct VersionResponse {
    pub version: String,
}

/// What a client needs to reach the relay for media.
#[derive(Debug, Clone, PartialEq, Eq)]
pub struct TurnConfig {
    pub uris: Vec<String>,
    pub username: String,
    pub credential: String,
}

impl MessageQuery {
    /// The size of the page asked for: the limit given, fifty where none is
    /// given, and never more than a hundred.
    pub open spec fn page(&self) -> int {
        let wanted = match self.limit {
            Some(limit) => limit,
            None => DEFAULT_PAGE_SIZE,
        };
        if wanted <= MAX_PAGE_SIZE {
            wanted as int
        } else {
            MAX_PAGE_SIZE as int
        }
    }

    /// Computes the size of the page asked for.
    pub fn page_size(&self) -> (size: i32)
        ensures
            size == self.page(),
    {
        let wanted = match self.limit {
            Some(limit) => limit,
            None => DEFAULT_PAGE_SIZE,
        };
        if wanted <= MAX_PAGE_SIZE {
            wanted
        } else {
            MAX_PAGE_SIZE
        }
    }
}

impl TurnConfig {
    /// The relay's settings made of its password and, where one is set, its
    /// address: the user name is `subspace:` followed by the password, the
    /// credential is the password itself.
    pub fn new(password: String, url: Option<String>) -> (config: TurnConfig)
        ensures
            config.credential == password,
            config.username@ == "subspace:"@ + password@,
            match url {
                Some(url) => config.uris@ == seq![url],
                None => config.uris@ == Seq::<String>::empty(),
            },
    {
        let mut uris: Vec<String> = Vec::new();
        match url {
            Some(url) => {
                uris.push(url);
                assert(uris@ =~= seq![url]);
            },
            None => {},
        }
        let mut username = String::from_str("subspace:");
        username.append(password.as_str());
        TurnConfig { uris, username, credential: password }
    }
}

/// What the connectivity-test peer answers to a frame: an `offer` that
/// carries a session description is answered with the same description as
/// an `answer`; nothing else is answered.
pub open spec fn turn_test_answer(frame: Seq<char>) -> Option<Seq<char>> {
    match json_members(frame) {
        Some(top) => match (text_of(top, "type"@), field_of(top, "sdp"@)) {
            (Some(kind), Some(sdp)) => if kind@ == "offer"@ {
                Some(
                    object(seq![member("sdp"@, field_wire(sdp)), member("type"@, quoted("answer"@))]),
                )
            } else {
                None
            },
            _ => None,
        },
        None => None,
    }
}

/// Answers a frame sent to the connectivity-test peer.
pub fn turn_test_reply(frame: &str) -> (reply: Option<String>)
    ensures
        match reply {
            Some(text) => turn_test_answer(frame@) == Some(text@),
            None => turn_test_answer(frame@) is None,
        },
{
    let top = match parse_object(frame) {
        Some(top) => top,
        None => {
            return None;
        },
    };
    match (find_text(&top, "type"), find_field(&top, "sdp")) {
        (Some(kind), Some(sdp)) => {
            if str_eq(kind.as_str(), "offer") {
                let mut members: Vec<String> = Vec::new();
                members.push(write_member("sdp", write_field(sdp).as_str()));
                members.push(write_member("type", json_quote("answer").as_str()));
                assert(views(members@) =~= seq![
                    member("sdp"@, field_wire(*sdp)),
                    member("type"@, quoted("answer"@)),
                ]);
                Some(write_object(&members))
            } else {
                None
            }
        },
        _ => None,
    }
}

/// Where the last dot of `name` stands, if it has one.
pub open spec fn last_dot(name: Seq<char>) -> Option<int>
    decreases name.len(),
{
    if name.len() == 0 {
        None
    } else if name.last() == '.' {
        Some(name.len() - 1)
    } else {
        last_dot(name.drop_last())
    }
}

/// The extension of a file name: what follows its last dot, or the whole
/// name where it has no dot.
pub open spec fn extension_of(name: Seq<char>) -> Seq<char> {
    match last_dot(name) {
        Some(at) => name.subrange(at + 1, name.len() as int),
        None => name,
    }
}

/// Takes the extension off a file name.
pub fn file_extension(name: &str) -> (ext: String)
    ensures
        ext@ == extension_of(name@),
{
    let n = name.unicode_len();
    let mut i = n;
    while i > 0
        invariant
            i <= n,
            n == name@.len(),
            forall|j: int| i <= j < n ==> name@[j] != '.',
        decreases i,
    {
        if name.get_char(i - 1) == '.' {
            proof {
                lemma_last_dot_after(name@, i as int - 1);
            }
            return String::from_str(name.substring_char(i, n));
        }
        i -= 1;
    }
    proof {
        lemma_last_dot_is_dot(name@);
    }
    String::from_str(name)
}

/// The last dot is a dot, and no dot follows it.
pub proof fn lemma_last_dot_is_dot(name: Seq<char>)
    ensures
        match last_dot(name) {
            Some(at) => 0 <= at < name.len() && name[at] == '.' && forall|j: int|
                at < j < name.len() ==> name[j] != '.',
            None => forall|j: int| 0 <= j < name.len() ==> name[j] != '.',
        },
    decreases name.len(),
{
    if name.len() > 0 && name.last() != '.' {
        lemma_last_dot_is_dot(name.drop_last());
        match last_dot(name.drop_last()) {
            Some(at) => {
                assert(name.drop_last()[at] == name[at]);
                assert forall|j: int| at < j < name.len() implies name[j] != '.' by {
                    if j < name.len() - 1 {
                        assert(name.drop_last()[j] == name[j]);
                    }
                }
            },
            None => {
                assert forall|j: int| 0 <= j < name.len() implies name[j] != '.' by {
                    if j < name.len() - 1 {
                        assert(name.drop_last()[j] == name[j]);
                    }
                }
            },
        }
    }
}

/// A dot that no dot follows is the last dot.
pub proof fn lemma_last_dot_after(name: Seq<char>, at: int)
    requires
        0 <= at < name.len(),
        name[at] == '.',
        forall|j: int| at < j < name.len() ==> name[j] != '.',
    ensures
        last_dot(name) == Some(at),
{
    lemma_last_dot_is_dot(name);
}

/// The name under which an uploaded file is stored: the id given, a dot,
/// and the extension of the name it came with.
pub fn stored_file_name(id: &Uuid, file_name: &str) -> (stored: String)
    ensures
        stored@ == id.text()@ + "."@ + extension_of(file_name@),
{
    let mut stored = id.to_string();
    stored.append(".");
    stored.append(file_extension(file_name).as_str());
    stored
}

/// The two parties of a conversation in the order in which it is stored:
/// the smaller id first. Nobody converses with oneself.
pub open spec fn ordered_pair(a: Uuid, b: Uuid) -> Option<(Uuid, Uuid)> {
    if a.value() == b.value() {
        None
    } else if a.value() < b.value() {
        Some((a, b))
    } else {
        Some((b, a))
    }
}

/// Orders the two parties of a conversation; `None` where they are one.
pub fn dm_pair(a: Uuid, b: Uuid) -> (pair: Option<(Uuid, Uuid)>)
    ensures
        pair == ordered_pair(a, b),
{
    if a.same(&b) {
        None
    } else if a.as_u128() < b.as_u128() {
        Some((a, b))
    } else {
        Some((b, a))
    }
}

/// Tells whether `user` is one of the two parties of a conversation: only
/// they may read it and write to it.
pub fn is_participant(user: &Uuid, first: &Uuid, second: &Uuid) -> (allowed: bool)
    ensures
        allowed == (user.value() == first.value() || user.value() == second.value()),
{
    user.same(first) || user.same(second)
}

/// Tells whether `user` wrote the message: only its author may change or
/// delete a direct message.
pub fn is_author(user: &Uuid, author: &Uuid) -> (allowed: bool)
    ensures
        allowed == (user.value() == author.value()),
{
    user.same(author)
}

/// What is published when the text of a message was changed at `edited_at`.
pub fn message_edited(message_id: Uuid, content: String, edited_at: String) -> (event: Outbound)
    ensures
        event == Outbound::MessageUpdated(
            WsMessageUpdated {
                message_id,
                content: Some(content),
                edited_at: Some(edited_at),
                pinned: None,
            },
        ),
{
    Outbound::MessageUpdated(
        WsMessageUpdated {
            message_id,
            content: Some(content),
            edited_at: Some(edited_at),
            pinned: None,
        },
    )
}

/// What is published when a message was pinned or unpinned.
pub fn message_pinned(message_id: Uuid, pinned: bool) -> (event: Outbound)
    ensures
        event == Outbound::MessageUpdated(
            WsMessageUpdated { message_id, content: None, edited_at: None, pinned: Some(pinned) },
        ),
{
    Outbound::MessageUpdated(
        WsMessageUpdated { message_id, content: None, edited_at: None, pinned: Some(pinned) },
    )
}

/// What is published when a message was deleted from a channel.
pub fn message_deleted(message_id: Uuid, channel_id: Uuid) -> (event: Outbound)
    ensures
        event == Outbound::MessageDeleted(WsMessageDeleted { message_id, channel_id }),
{
    Outbound::MessageDeleted(WsMessageDeleted { message_id, channel_id })
}

/// The counted reactions that stored rows describe, one for one.
pub open spec fn reactions_of(rows: Seq<ReactionGroupRow>) -> Seq<ReactionGroup> {
    rows.map_values(|row: ReactionGroupRow| ReactionGroup::of_row(row))
}

/// Turns stored rows into the counted reactions they describe.
pub fn reactions_from_rows(rows: &Vec<ReactionGroupRow>) -> (reactions: Vec<ReactionGroup>)
    ensures
        reactions@ == reactions_of(rows@),
{
    let mut reactions: Vec<ReactionGroup> = Vec::new();
    let mut i: usize = 0;
    while i < rows.len()
        invariant
            i <= rows.len(),
            reactions@.len() == i,
            forall|j: int| 0 <= j < i ==> #[trigger] reactions@[j] == ReactionGroup::of_row(rows@[j]),
        decreases rows.len() - i,
    {
        reactions.push(ReactionGroup::from_row(&rows[i]));
        i += 1;
    }
    assert(reactions@ =~= reactions_of(rows@));
    reactions
}

/// The attachments that stored rows describe, one for one and in order;
/// `None` where any row holds an id that is no UUID.
pub open spec fn attachments_of(rows: Seq<AttachmentRow>) -> Option<Seq<Attachment>>
    decreases rows.len(),
{
    if rows.len() == 0 {
        Some(Seq::empty())
    } else {
        match (attachments_of(rows.drop_last()), Attachment::of_row(rows.last())) {
            (Some(before), Some(last)) => Some(before.push(last)),
            _ => None,
        }
    }
}

/// Where the first `n` rows do not all describe an attachment, the whole
/// list does not either.
pub proof fn lemma_attachments_prefix(rows: Seq<AttachmentRow>, n: int)
    requires
        0 <= n <= rows.len(),
        attachments_of(rows.take(n)) is None,
    ensures
        attachments_of(rows) is None,
    decreases rows.len() - n,
{
    if n < rows.len() {
        assert(rows.take(n + 1).drop_last() =~= rows.take(n));
        lemma_attachments_prefix(rows, n + 1);
    } else {
        assert(rows.take(n) =~= rows);
    }
}

/// Turns stored rows into the attachments they describe.
pub fn attachments_from_rows(rows: &Vec<AttachmentRow>) -> (r: Option<Vec<Attachment>>)
    ensures
        match r {
            Some(attachments) => attachments_of(rows@) == Some(attachments@),
            None => attachments_of(rows@) is None,
        },
{
    let mut attachments: Vec<Attachment> = Vec::new();
    let mut i: usize = 0;
    assert(rows@.take(0) =~= Seq::empty());
    while i < rows.len()
        invariant
            i <= rows.len(),
            attachments_of(rows@.take(i as int)) == Some(attachments@),
        decreases rows.len() - i,
    {
        proof {
            assert(rows@.take(i as int + 1).drop_last() =~= rows@.take(i as int));
            assert(rows@.take(i as int + 1).last() == rows@[i as int]);
        }
        match Attachment::from_row(&rows[i]) {
            Some(attachment) => {
                attachments.push(attachment);
            },
            None => {
                proof {
                    lemma_attachments_prefix(rows@, i as int + 1);
                }
                return None;
            },
        }
        i += 1;
    }
    assert(rows@.take(rows.len() as int) =~= rows@);
    Some(attachments)
}

/// What is published when the reactions to a message changed: the message
/// with all its reactions as they now stand.
pub fn reactions_changed(message_id: Uuid, rows: &Vec<ReactionGroupRow>) -> (event: Outbound)
    ensures
        event matches Outbound::ReactionUpdated(update) && update.message_id == message_id
            && update.reactions@ == reactions_of(rows@),
{
    Outbound::ReactionUpdated(
        WsReactionUpdated { message_id, reactions: reactions_from_rows(rows) },
    )
}

/// Turns a page of messages around: the store lists the newest first, the
/// client reads the oldest first.
pub fn oldest_first(newest_first: Vec<Message>) -> (page: Vec<Message>)
    ensures
        page@ == newest_first@.reverse(),
{
    let mut rest = newest_first;
    let mut page: Vec<Message> = Vec::new();
    let ghost all = rest@;
    while rest.len() > 0
        invariant
            rest@.len() <= all.len(),
            rest@ =~= all.take(rest@.len() as int),
            page@.len() == all.len() - rest@.len(),
            forall|j: int| 0 <= j < page@.len() ==> #[trigger] page@[j] == all[all.len() - 1 - j],
        decreases rest.len(),
    {
        let ghost before = rest@;
        match rest.pop() {
            Some(message) => {
                assert(message == all[before.len() - 1]);
                page.push(message);
            },
            None => {},
        }
    }
    assert(page@ =~= all.reverse());
    page
}

} // verus!
