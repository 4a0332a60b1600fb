use subspace_hub::db::{
    AttachmentRow, ChannelRow, DmConversationRow, DmMessageRow, MemberRow, MessageRow,
    ReactionGroupRow, ServerRow, UserRow, VoiceStateRow,
};
use subspace_hub::ids::Uuid;
use subspace_hub::models::{
    Attachment, Channel, DmConversation, DmMessage, Message, ReactionGroup, Server, ServerMember,
    User, UserPublic, UserStatus, VoiceState,
};
use subspace_hub::routes::{
    attachments_from_rows, dm_pair, is_author, is_participant, message_deleted, message_edited,
    message_pinned, oldest_first, reactions_changed, reactions_from_rows, MessageQuery, TurnConfig,
    DEFAULT_PAGE_SIZE, MAX_PAGE_SIZE,
};
use subspace_hub::ws_messages::{Outbound, WsMessageDeleted, WsMessageUpdated};

const A: &str = "00000000-0000-0000-0000-00000000000a";
const B: &str = "00000000-0000-0000-0000-00000000000b";
const C: &str = "550e8400-e29b-41d4-a716-446655440000";

fn id(text: &str) -> Uuid {
    Uuid::parse_str(text).unwrap()
}

#[test]
fn uuid_parses_the_forms_of_the_uuid_crate() {
    let canonical = id(C);
    assert_eq!(canonical.as_u128(), 0x550e8400e29b41d4a716446655440000);
    assert_eq!(canonical.to_string(), C);
    for form in [
        "550e8400e29b41d4a716446655440000",
        "550E8400-E29B-41D4-A716-446655440000",
        "urn:uuid:550e8400-e29b-41d4-a716-446655440000",
        "{550e8400-e29b-41d4-a716-446655440000}",
    ] {
        let parsed = Uuid::parse_str(form).unwrap();
        assert_eq!(parsed, canonical, "{form}");
        assert_eq!(parsed.as_str(), C);
    }
}

#[test]
fn uuid_rejects_what_is_no_uuid() {
    for bad in ["", "C1", "550e8400-e29b-41d4-a716-44665544000", "550e8400-e29b-41d4-a716-44665544000g", " 550e8400-e29b-41d4-a716-446655440000"] {
        assert_eq!(Uuid::parse_str(bad), None, "{bad:?}");
    }
}

#[test]
fn uuid_from_its_bits() {
    let made = Uuid::from_u128(0x0123456789abcdef0123456789abcdef);
    assert_eq!(made.to_string(), "01234567-89ab-cdef-0123-456789abcdef");
    assert_eq!(made.as_u128(), 0x0123456789abcdef0123456789abcdef);
    assert_eq!(Uuid::from_u128(0).to_string(), "00000000-0000-0000-0000-000000000000");
    assert_eq!(Uuid::from_u128(u128::MAX).as_str(), "ffffffff-ffff-ffff-ffff-ffffffffffff");
    assert_eq!(made.clone(), made);
    assert!(made.same(&id("0123456789ABCDEF0123456789ABCDEF")));
    assert!(!made.same(&id(C)));
}

#[test]
fn fresh_uuids_are_random_version_four() {
    let a = Uuid::new_v4();
    let b = Uuid::new_v4();
    assert_ne!(a, b);
    assert_eq!(Uuid::parse_str(a.as_str()), Some(a.clone()));
    assert_eq!(a.as_str().len(), 36);
    assert_eq!(a.as_str().as_bytes()[14], b'4');
    assert_eq!((a.as_u128() >> 76) & 0xf, 4);
}

fn user_row(id: &str) -> UserRow {
    UserRow {
        id: id.to_string(),
        username: "bob".to_string(),
        password_hash: "h".to_string(),
        avatar_url: Some("a.png".to_string()),
        theme: "dark".to_string(),
        language: "en".to_string(),
        notifications_enabled: true,
        created_at: "t0".to_string(),
        updated_at: "t1".to_string(),
    }
}

#[test]
fn user_from_row() {
    assert_eq!(
        User::from_row(&user_row(A)),
        Some(User {
            id: id(A),
            username: "bob".to_string(),
            avatar_url: Some("a.png".to_string()),
            theme: "dark".to_string(),
            language: "en".to_string(),
            notifications_enabled: true,
            created_at: "t0".to_string(),
            updated_at: "t1".to_string(),
        })
    );
    assert_eq!(User::from_row(&user_row("bob")), None);
}

#[test]
fn user_public_from_row_hides_the_settings() {
    assert_eq!(
        UserPublic::from_row(&user_row(A)),
        Some(UserPublic {
            id: id(A),
            username: "bob".to_string(),
            avatar_url: Some("a.png".to_string()),
            status: None,
        })
    );
    assert_eq!(UserPublic::from_row(&user_row("")), None);
}

#[test]
fn user_public_json() {
    let status = UserStatus {
        user_id: id(A),
        status: "idle".to_string(),
        custom_text: None,
        activity_type: Some("game".to_string()),
        activity_name: None,
        last_seen: "t2".to_string(),
        updated_at: "t3".to_string(),
    };
    let user = UserPublic {
        id: id(A),
        username: "bob".to_string(),
        avatar_url: None,
        status: Some(status),
    };
    assert_eq!(
        user.to_json(),
        format!(
            "{{\"avatar_url\":null,\"id\":\"{A}\",\"status\":{{\"activity_name\":null,\"activity_type\":\"game\",\"custom_text\":null,\"last_seen\":\"t2\",\"status\":\"idle\",\"updated_at\":\"t3\",\"user_id\":\"{A}\"}},\"username\":\"bob\"}}"
        )
    );
}

#[test]
fn server_channel_and_member_from_rows() {
    let server = ServerRow {
        id: A.to_string(),
        name: "home".to_string(),
        icon_url: None,
        owner_id: B.to_string(),
        created_at: "t0".to_string(),
        updated_at: "t1".to_string(),
    };
    assert_eq!(
        Server::from_row(&server),
        Some(Server {
            id: id(A),
            name: "home".to_string(),
            icon_url: None,
            owner_id: id(B),
            created_at: "t0".to_string(),
            updated_at: "t1".to_string(),
        })
    );
    let mut broken = server.clone();
    broken.owner_id = "root".to_string();
    assert_eq!(Server::from_row(&broken), None);

    let channel = ChannelRow {
        id: C.to_string(),
        server_id: A.to_string(),
        name: "general".to_string(),
        channel_type: "text".to_string(),
        position: 3,
        created_at: "t0".to_string(),
        updated_at: "t1".to_string(),
    };
    let made = Channel::from_row(&channel).unwrap();
    assert_eq!(made.id, id(C));
    assert_eq!(made.server_id, id(A));
    assert_eq!(made.channel_type, "text");
    assert_eq!(made.position, 3);

    let member = MemberRow {
        user_id: B.to_string(),
        server_id: A.to_string(),
        role: "owner".to_string(),
        joined_at: "t".to_string(),
        username: "bob".to_string(),
        avatar_url: None,
    };
    let made = ServerMember::from_row(&member, None).unwrap();
    assert_eq!(made.user_id, id(B));
    assert_eq!(made.server_id, id(A));
    assert_eq!(made.role, "owner");
    assert_eq!(made.status, None);
}

fn message_row() -> MessageRow {
    MessageRow {
        id: C.to_string(),
        channel_id: A.to_string(),
        author_id: B.to_string(),
        content: Some("hi".to_string()),
        pinned: true,
        created_at: "t0".to_string(),
        edited_at: Some("t1".to_string()),
        author_username: "bob".to_string(),
        author_avatar_url: None,
    }
}

#[test]
fn message_from_row_takes_its_author_from_the_row() {
    let reactions = vec![ReactionGroup { emoji: "x".to_string(), count: 1, me: false }];
    let message = Message::from_row(&message_row(), vec![], reactions.clone()).unwrap();
    assert_eq!(message.id, id(C));
    assert_eq!(message.channel_id, id(A));
    assert_eq!(message.author_id, id(B));
    assert_eq!(message.content, Some("hi".to_string()));
    assert!(message.pinned);
    assert_eq!(message.edited_at, Some("t1".to_string()));
    assert_eq!(
        message.author,
        Some(UserPublic { id: id(B), username: "bob".to_string(), avatar_url: None, status: None })
    );
    assert_eq!(message.attachments, vec![]);
    assert_eq!(message.reactions, reactions);
    let mut broken = message_row();
    broken.channel_id = "general".to_string();
    assert_eq!(Message::from_row(&broken, vec![], vec![]), None);
}

#[test]
fn message_json_with_attachments_and_reactions() {
    let attachment = Attachment {
        id: id(A),
        message_id: id(C),
        file_url: "/uploads/f.png".to_string(),
        file_name: "f.png".to_string(),
        mime_type: "image/png".to_string(),
        size_bytes: Some(-5),
        created_at: "t".to_string(),
    };
    let message = Message::from_row(
        &message_row(),
        vec![attachment],
        vec![ReactionGroup { emoji: "x".to_string(), count: 2147483647, me: true }],
    )
    .unwrap();
    let written = message.to_json();
    let read: serde_json::Value = serde_json::from_str(&written).unwrap();
    assert_eq!(serde_json::to_string(&read).unwrap(), written);
    assert_eq!(read["attachments"][0]["size_bytes"].as_i64(), Some(-5));
    assert_eq!(read["attachments"][0]["file_name"].as_str(), Some("f.png"));
    assert_eq!(read["reactions"][0]["count"].as_i64(), Some(2147483647));
    assert_eq!(read["author"]["username"].as_str(), Some("bob"));
    assert_eq!(read["pinned"].as_bool(), Some(true));
}

#[test]
fn voice_states_from_rows() {
    let row = |user: &str| VoiceStateRow {
        user_id: user.to_string(),
        channel_id: C.to_string(),
        muted: true,
        deafened: false,
        joined_at: "t".to_string(),
        username: "bob".to_string(),
        avatar_url: None,
    };
    assert_eq!(
        VoiceState::from_row(&row(A)),
        Some(VoiceState {
            user_id: id(A),
            channel_id: id(C),
            muted: true,
            deafened: false,
            joined_at: "t".to_string(),
            username: Some("bob".to_string()),
            avatar_url: None,
        })
    );
    let all = VoiceState::from_rows(&vec![row(A), row(B)]).unwrap();
    assert_eq!(all.len(), 2);
    assert_eq!(all[0].user_id, id(A));
    assert_eq!(all[1].user_id, id(B));
    assert_eq!(VoiceState::from_rows(&vec![]), Some(vec![]));
    assert_eq!(VoiceState::from_rows(&vec![row(A), row("?"), row(B)]), None);
    assert_eq!(VoiceState::from_rows(&vec![row("?")]), None);
}

#[test]
fn attachments_and_reactions_from_rows() {
    let row = |id: &str| AttachmentRow {
        id: id.to_string(),
        message_id: C.to_string(),
        file_url: "u".to_string(),
        file_name: "n".to_string(),
        mime_type: "m".to_string(),
        size_bytes: None,
        created_at: "t".to_string(),
    };
    let made = attachments_from_rows(&vec![row(A), row(B)]).unwrap();
    assert_eq!(made.len(), 2);
    assert_eq!(made[1].id, id(B));
    assert_eq!(made[1].size_bytes, None);
    assert_eq!(attachments_from_rows(&vec![row(A), row("b")]), None);
    assert_eq!(attachments_from_rows(&vec![]), Some(vec![]));
    assert_eq!(Attachment::from_row(&row("a")), None);

    let rows = vec![
        ReactionGroupRow { emoji: "a".to_string(), count: 1, me: true },
        ReactionGroupRow { emoji: "b".to_string(), count: 0, me: false },
    ];
    assert_eq!(
        reactions_from_rows(&rows),
        vec![
            ReactionGroup { emoji: "a".to_string(), count: 1, me: true },
            ReactionGroup { emoji: "b".to_string(), count: 0, me: false },
        ]
    );
    assert_eq!(ReactionGroup::from_row(&rows[0]).emoji, "a");
}

#[test]
fn direct_messages_from_rows() {
    let row = DmMessageRow {
        id: C.to_string(),
        conversation_id: A.to_string(),
        author_id: B.to_string(),
        content: None,
        created_at: "t".to_string(),
        edited_at: None,
        author_username: "bob".to_string(),
        author_avatar_url: Some("a".to_string()),
    };
    let message = DmMessage::from_row(&row, vec![], vec![]).unwrap();
    assert_eq!(message.conversation_id, id(A));
    assert_eq!(message.author.as_ref().unwrap().id, id(B));
    assert_eq!(message.author.as_ref().unwrap().avatar_url, Some("a".to_string()));
    let conversation = DmConversationRow {
        id: C.to_string(),
        user1_id: A.to_string(),
        user2_id: B.to_string(),
        created_at: "t0".to_string(),
        updated_at: "t1".to_string(),
        other_user_id: B.to_string(),
        other_username: "eve".to_string(),
        other_avatar_url: None,
    };
    let made = DmConversation::from_row(&conversation, Some(message.clone())).unwrap();
    assert_eq!(made.user1_id, id(A));
    assert_eq!(made.user2_id, id(B));
    assert_eq!(made.other_user.username, "eve");
    assert_eq!(made.last_message, Some(message));
    let mut broken = conversation.clone();
    broken.other_user_id = String::new();
    assert_eq!(DmConversation::from_row(&broken, None), None);
}

#[test]
fn page_size_is_fifty_by_default_and_a_hundred_at_most() {
    let query = |limit| MessageQuery { limit, before: None };
    assert_eq!(DEFAULT_PAGE_SIZE, 50);
    assert_eq!(MAX_PAGE_SIZE, 100);
    assert_eq!(query(None).page_size(), 50);
    assert_eq!(query(Some(10)).page_size(), 10);
    assert_eq!(query(Some(100)).page_size(), 100);
    assert_eq!(query(Some(101)).page_size(), 100);
    assert_eq!(query(Some(i32::MAX)).page_size(), 100);
    assert_eq!(query(Some(0)).page_size(), 0);
    assert_eq!(query(Some(-3)).page_size(), -3);
}

#[test]
fn conversation_parties_are_ordered() {
    assert_eq!(dm_pair(id(A), id(B)), Some((id(A), id(B))));
    assert_eq!(dm_pair(id(B), id(A)), Some((id(A), id(B))));
    assert_eq!(dm_pair(id(A), id(A)), None);
    let high = id("80000000-0000-0000-0000-000000000000");
    assert_eq!(dm_pair(high.clone(), id(C)), Some((id(C), high)));
}

#[test]
fn only_parties_and_authors_may_act() {
    assert!(is_participant(&id(A), &id(A), &id(B)));
    assert!(is_participant(&id(B), &id(A), &id(B)));
    assert!(!is_participant(&id(C), &id(A), &id(B)));
    assert!(is_author(&id(A), &id(A)));
    assert!(!is_author(&id(A), &id(B)));
}

#[test]
fn turn_config() {
    let with_url = TurnConfig::new("pw".to_string(), Some("turn:example.org".to_string()));
    assert_eq!(with_url.uris, vec!["turn:example.org".to_string()]);
    assert_eq!(with_url.username, "subspace:pw");
    assert_eq!(with_url.credential, "pw");
    let without = TurnConfig::new(String::new(), None);
    assert_eq!(without.uris, Vec::<String>::new());
    assert_eq!(without.username, "subspace:");
    assert_eq!(without.credential, "");
}

#[test]
fn message_events() {
    assert_eq!(
        message_edited(id(C), "new".to_string(), "17".to_string()),
        Outbound::MessageUpdated(WsMessageUpdated {
            message_id: id(C),
            content: Some("new".to_string()),
            edited_at: Some("17".to_string()),
            pinned: None,
        })
    );
    assert_eq!(
        message_pinned(id(C), false),
        Outbound::MessageUpdated(WsMessageUpdated {
            message_id: id(C),
            content: None,
            edited_at: None,
            pinned: Some(false),
        })
    );
    assert_eq!(
        message_deleted(id(C), id(A)),
        Outbound::MessageDeleted(WsMessageDeleted { message_id: id(C), channel_id: id(A) })
    );
    let rows = vec![ReactionGroupRow { emoji: "a".to_string(), count: 4, me: false }];
    match reactions_changed(id(C), &rows) {
        Outbound::ReactionUpdated(update) => {
            assert_eq!(update.message_id, id(C));
            assert_eq!(update.reactions, vec![ReactionGroup { emoji: "a".to_string(), count: 4, me: false }]);
        }
        other => panic!("unexpected: {:?}", other),
    }
}

#[test]
fn pages_are_turned_oldest_first() {
    let message = |content: &str| {
        let mut row = message_row();
        row.content = Some(content.to_string());
        Message::from_row(&row, vec![], vec![]).unwrap()
    };
    let page = oldest_first(vec![message("3"), message("2"), message("1")]);
    let contents: Vec<_> = page.iter().map(|m| m.content.clone().unwrap()).collect();
    assert_eq!(contents, vec!["1", "2", "3"]);
    assert_eq!(oldest_first(vec![]), vec![]);
    assert_eq!(oldest_first(vec![message("x")]).len(), 1);
}
