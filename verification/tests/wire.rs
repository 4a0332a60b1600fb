use serde_json::{Number, Value};
use subspace_hub::db::{MessageRow, UserRow, VoiceStateRow};
use subspace_hub::ids::Uuid;
use subspace_hub::models::ReactionGroup;
use subspace_hub::ws_messages::{
    Inbound, Outbound, WsAuth, WsEnvelope, WsError, WsJoinVoice, WsLeaveVoice, WsMessageDeleted,
    WsMessageUpdated, WsReactionUpdated, WsSendMessage, WsSignalIce, WsSignalSdp, WsTyping,
    WsVoiceMuteDeafen,
};

const C1: &str = "550e8400-e29b-41d4-a716-446655440000";
const U1: &str = "6ba7b810-9dad-11d1-80b4-00c04fd430c8";
const U2: &str = "6ba7b811-9dad-11d1-80b4-00c04fd430c8";
const M1: &str = "7d444840-9dc0-11d1-b245-5ffdce74fad2";

fn id(text: &str) -> Uuid {
    Uuid::parse_str(text).unwrap()
}

fn text(s: &str) -> Value {
    Value::String(s.to_string())
}

fn object(members: Vec<(&str, Value)>) -> Value {
    let mut map = serde_json::Map::new();
    for (key, value) in members {
        map.insert(key.to_string(), value);
    }
    Value::Object(map)
}

/// The frame as serde_json writes it: the tag, then the payload.
fn frame(tag: &str, payload: &Value) -> String {
    format!(
        "{{\"type\":{},\"payload\":{}}}",
        serde_json::to_string(tag).unwrap(),
        serde_json::to_string(payload).unwrap()
    )
}

#[test]
fn auth_success_frame_text() {
    assert_eq!(
        Outbound::AuthSuccess.to_text(),
        Some("{\"type\":\"auth_success\",\"payload\":null}".to_string())
    );
}

#[test]
fn invalid_token_frame_text() {
    assert_eq!(
        Outbound::InvalidToken.to_text(),
        Some("{\"type\":\"error\",\"payload\":{\"message\":\"Invalid token\"}}".to_string())
    );
    assert_eq!(WsError::invalid_token().message, "Invalid token");
}

#[test]
fn envelope_quotes_its_tag() {
    let envelope = WsEnvelope { msg_type: "a\"b".to_string(), payload: "null".to_string() };
    assert_eq!(envelope.to_text(), "{\"type\":\"a\\\"b\",\"payload\":null}");
}

#[test]
fn error_message_is_escaped() {
    let error = WsError { message: "line\nbreak \"quoted\" \\ é".to_string() };
    let written = error.to_json();
    assert_eq!(written, "{\"message\":\"line\\nbreak \\\"quoted\\\" \\\\ é\"}");
    let read: Value = serde_json::from_str(&written).unwrap();
    assert_eq!(read, object(vec![("message", text("line\nbreak \"quoted\" \\ é"))]));
}

#[test]
fn auth_frame_decodes() {
    let frame = "{\"type\":\"auth\",\"payload\":{\"token\":\"T\"}}";
    assert_eq!(Inbound::decode(frame), Some(Inbound::Auth(WsAuth { token: "T".to_string() })));
}

#[test]
fn auth_frame_needs_a_token_string() {
    assert_eq!(Inbound::decode("{\"type\":\"auth\",\"payload\":{}}"), None);
    assert_eq!(Inbound::decode("{\"type\":\"auth\",\"payload\":{\"token\":7}}"), None);
    assert_eq!(Inbound::decode("{\"type\":\"auth\",\"payload\":null}"), None);
    assert_eq!(Inbound::decode("{\"type\":\"auth\",\"payload\":[\"T\"]}"), None);
    assert_eq!(Inbound::decode("{\"type\":\"auth\"}"), None);
}

#[test]
fn frames_that_are_no_envelope_do_not_decode() {
    assert_eq!(Inbound::decode(""), None);
    assert_eq!(Inbound::decode("not json"), None);
    assert_eq!(Inbound::decode("[]"), None);
    assert_eq!(Inbound::decode("\"auth\""), None);
    assert_eq!(Inbound::decode("{\"payload\":{\"token\":\"T\"}}"), None);
    assert_eq!(Inbound::decode("{\"type\":5,\"payload\":{\"token\":\"T\"}}"), None);
    assert_eq!(Inbound::decode("{\"type\":\"auth\",\"payload\":{\"token\":\"T\"}} x"), None);
}

#[test]
fn unknown_tags_do_not_decode() {
    assert_eq!(Inbound::decode("{\"type\":\"dance\",\"payload\":{}}"), None);
    assert_eq!(Inbound::decode("{\"type\":\"AUTH\",\"payload\":{\"token\":\"T\"}}"), None);
    assert_eq!(Inbound::decode("{\"type\":\"\",\"payload\":null}"), None);
    assert_eq!(Inbound::decode("{\"type\":\"message_created\",\"payload\":{}}"), None);
}

#[test]
fn extra_members_are_ignored() {
    let frame =
        "{\"v\":2,\"type\":\"auth\",\"payload\":{\"token\":\"T\",\"device\":{\"os\":\"x\"},\"n\":[1]}}";
    assert_eq!(Inbound::decode(frame), Some(Inbound::Auth(WsAuth { token: "T".to_string() })));
}

#[test]
fn send_message_frame_decodes() {
    let frame = format!(
        "{{\"type\":\"send_message\",\"payload\":{{\"channel_id\":\"{C1}\",\"content\":\"hi\"}}}}"
    );
    assert_eq!(
        Inbound::decode(&frame),
        Some(Inbound::SendMessage(WsSendMessage { channel_id: id(C1), content: "hi".to_string() }))
    );
}

#[test]
fn send_message_frame_needs_both_members() {
    let no_content = format!("{{\"type\":\"send_message\",\"payload\":{{\"channel_id\":\"{C1}\"}}}}");
    assert_eq!(Inbound::decode(&no_content), None);
    let no_channel = "{\"type\":\"send_message\",\"payload\":{\"content\":\"hi\"}}";
    assert_eq!(Inbound::decode(no_channel), None);
    let bad_channel =
        "{\"type\":\"send_message\",\"payload\":{\"channel_id\":\"C1\",\"content\":\"hi\"}}";
    assert_eq!(Inbound::decode(bad_channel), None);
    let null_content = format!(
        "{{\"type\":\"send_message\",\"payload\":{{\"channel_id\":\"{C1}\",\"content\":null}}}}"
    );
    assert_eq!(Inbound::decode(&null_content), None);
}

#[test]
fn channel_ids_are_read_in_every_form_and_kept_canonical() {
    let frame = "{\"type\":\"typing\",\"payload\":{\"channel_id\":\"550E8400E29B41D4A716446655440000\"}}";
    match Inbound::decode(frame) {
        Some(Inbound::Typing(WsTyping { channel_id })) => {
            assert_eq!(channel_id.as_str(), C1);
            assert_eq!(channel_id.to_string(), C1);
            assert_eq!(channel_id.as_u128(), 0x550e8400e29b41d4a716446655440000u128);
        }
        other => panic!("unexpected: {:?}", other),
    }
}

#[test]
fn typing_and_join_voice_frames_decode() {
    let typing = format!("{{\"type\":\"typing\",\"payload\":{{\"channel_id\":\"{C1}\"}}}}");
    assert_eq!(Inbound::decode(&typing), Some(Inbound::Typing(WsTyping { channel_id: id(C1) })));
    let join = format!("{{\"type\":\"join_voice\",\"payload\":{{\"channel_id\":\"{C1}\"}}}}");
    assert_eq!(Inbound::decode(&join), Some(Inbound::JoinVoice(WsJoinVoice { channel_id: id(C1) })));
    assert_eq!(Inbound::decode("{\"type\":\"join_voice\",\"payload\":{}}"), None);
    assert_eq!(Inbound::decode("{\"type\":\"typing\",\"payload\":{\"channel_id\":17}}"), None);
}

#[test]
fn leave_voice_takes_any_payload() {
    let expected = Some(Inbound::LeaveVoice(WsLeaveVoice {}));
    assert_eq!(Inbound::decode("{\"type\":\"leave_voice\",\"payload\":null}"), expected);
    assert_eq!(Inbound::decode("{\"type\":\"leave_voice\",\"payload\":{}}"), expected);
    assert_eq!(Inbound::decode("{\"type\":\"leave_voice\",\"payload\":[1,2]}"), expected);
    assert_eq!(Inbound::decode("{\"type\":\"leave_voice\",\"payload\":\"x\"}"), expected);
    assert_eq!(Inbound::decode("{\"type\":\"leave_voice\"}"), None);
}

#[test]
fn voice_mute_deafen_frame_decodes() {
    let frame = "{\"type\":\"voice_mute_deafen\",\"payload\":{\"muted\":true,\"deafened\":false}}";
    assert_eq!(
        Inbound::decode(frame),
        Some(Inbound::VoiceMuteDeafen(WsVoiceMuteDeafen { muted: true, deafened: false }))
    );
    assert_eq!(
        Inbound::decode("{\"type\":\"voice_mute_deafen\",\"payload\":{\"muted\":true}}"),
        None
    );
    assert_eq!(
        Inbound::decode(
            "{\"type\":\"voice_mute_deafen\",\"payload\":{\"muted\":1,\"deafened\":0}}"
        ),
        None
    );
}

#[test]
fn signal_sdp_frame_decodes() {
    let frame = format!(
        "{{\"type\":\"signal_sdp\",\"payload\":{{\"target_user_id\":\"{U2}\",\"sdp\":\"v=0\",\"sdp_type\":\"offer\"}}}}"
    );
    assert_eq!(
        Inbound::decode(&frame),
        Some(Inbound::SignalSdp(WsSignalSdp {
            target_user_id: id(U2),
            sdp: "v=0".to_string(),
            sdp_type: "offer".to_string(),
        }))
    );
    let short = format!("{{\"type\":\"signal_sdp\",\"payload\":{{\"target_user_id\":\"{U2}\",\"sdp\":\"v=0\"}}}}");
    assert_eq!(Inbound::decode(&short), None);
}

#[test]
fn signal_ice_frame_decodes_with_and_without_its_optional_members() {
    let full = format!(
        "{{\"type\":\"signal_ice\",\"payload\":{{\"target_user_id\":\"{U2}\",\"candidate\":\"c\",\"sdp_mid\":\"0\",\"sdp_mline_index\":65535}}}}"
    );
    assert_eq!(
        Inbound::decode(&full),
        Some(Inbound::SignalIce(WsSignalIce {
            target_user_id: id(U2),
            candidate: "c".to_string(),
            sdp_mid: Some("0".to_string()),
            sdp_mline_index: Some(65535),
        }))
    );
    let bare = format!(
        "{{\"type\":\"signal_ice\",\"payload\":{{\"target_user_id\":\"{U2}\",\"candidate\":\"c\"}}}}"
    );
    let nulls = format!(
        "{{\"type\":\"signal_ice\",\"payload\":{{\"target_user_id\":\"{U2}\",\"candidate\":\"c\",\"sdp_mid\":null,\"sdp_mline_index\":null}}}}"
    );
    let expected = Some(Inbound::SignalIce(WsSignalIce {
        target_user_id: id(U2),
        candidate: "c".to_string(),
        sdp_mid: None,
        sdp_mline_index: None,
    }));
    assert_eq!(Inbound::decode(&bare), expected);
    assert_eq!(Inbound::decode(&nulls), expected);
}

#[test]
fn signal_ice_line_index_must_fit_sixteen_bits() {
    for bad in ["65536", "-1", "1.5", "\"3\"", "true", "18446744073709551616"] {
        let frame = format!(
            "{{\"type\":\"signal_ice\",\"payload\":{{\"target_user_id\":\"{U2}\",\"candidate\":\"c\",\"sdp_mline_index\":{bad}}}}}"
        );
        assert_eq!(Inbound::decode(&frame), None, "index {bad}");
    }
    let zero = format!(
        "{{\"type\":\"signal_ice\",\"payload\":{{\"target_user_id\":\"{U2}\",\"candidate\":\"c\",\"sdp_mline_index\":0}}}}"
    );
    assert!(matches!(
        Inbound::decode(&zero),
        Some(Inbound::SignalIce(WsSignalIce { sdp_mline_index: Some(0), .. }))
    ));
    let bad_mid = format!(
        "{{\"type\":\"signal_ice\",\"payload\":{{\"target_user_id\":\"{U2}\",\"candidate\":\"c\",\"sdp_mid\":4}}}}"
    );
    assert_eq!(Inbound::decode(&bad_mid), None);
}

fn stored_message() -> MessageRow {
    MessageRow {
        id: M1.to_string(),
        channel_id: C1.to_string(),
        author_id: U1.to_string(),
        content: Some("hi".to_string()),
        pinned: false,
        created_at: "2024-01-01T00:00:00.000Z".to_string(),
        edited_at: None,
        author_username: "bob".to_string(),
        author_avatar_url: None,
    }
}

#[test]
fn message_created_frame_text() {
    let event = Outbound::MessageCreated { record: stored_message() };
    let author = object(vec![
        ("id", text(U1)),
        ("username", text("bob")),
        ("avatar_url", Value::Null),
        ("status", Value::Null),
    ]);
    let message = object(vec![
        ("id", text(M1)),
        ("channel_id", text(C1)),
        ("author_id", text(U1)),
        ("content", text("hi")),
        ("pinned", Value::Bool(false)),
        ("created_at", text("2024-01-01T00:00:00.000Z")),
        ("edited_at", Value::Null),
        ("author", author),
        ("attachments", Value::Array(vec![])),
        ("reactions", Value::Array(vec![])),
    ]);
    let payload = object(vec![("message", message)]);
    assert_eq!(event.to_text(), Some(frame("message_created", &payload)));
    let envelope = event.envelope().unwrap();
    assert_eq!(envelope.msg_type, "message_created");
    assert_eq!(serde_json::from_str::<Value>(&envelope.payload).unwrap(), payload);
    assert!(envelope.payload.contains("\"content\":\"hi\""));
}

#[test]
fn message_created_with_a_malformed_id_makes_no_frame() {
    let mut record = stored_message();
    record.author_id = "nobody".to_string();
    let event = Outbound::MessageCreated { record };
    assert_eq!(event.to_text(), None);
    assert_eq!(event.envelope(), None);
}

#[test]
fn user_typing_frame_text() {
    let user = UserRow {
        id: U1.to_string(),
        username: "bob".to_string(),
        password_hash: "secret-hash".to_string(),
        avatar_url: Some("/uploads/a.png".to_string()),
        theme: "dark".to_string(),
        language: "en".to_string(),
        notifications_enabled: true,
        created_at: "t0".to_string(),
        updated_at: "t1".to_string(),
    };
    let event = Outbound::UserTyping { channel_id: id(C1), user };
    let payload = object(vec![
        ("channel_id", text(C1)),
        (
            "user",
            object(vec![
                ("id", text(U1)),
                ("username", text("bob")),
                ("avatar_url", text("/uploads/a.png")),
                ("status", Value::Null),
            ]),
        ),
    ]);
    let written = event.to_text().unwrap();
    assert_eq!(written, frame("user_typing", &payload));
    assert!(!written.contains("secret-hash"));
}

fn occupant(user_id: &str, name: &str, muted: bool, deafened: bool) -> VoiceStateRow {
    VoiceStateRow {
        user_id: user_id.to_string(),
        channel_id: C1.to_string(),
        muted,
        deafened,
        joined_at: "t".to_string(),
        username: name.to_string(),
        avatar_url: None,
    }
}

#[test]
fn voice_state_update_frame_text() {
    let event = Outbound::VoiceStateUpdate {
        channel_id: C1.to_string(),
        occupants: vec![occupant(U1, "bob", true, false), occupant(U2, "eve", false, true)],
    };
    let state = |user: &str, name: &str, muted: bool, deafened: bool| {
        object(vec![
            ("user_id", text(user)),
            ("channel_id", text(C1)),
            ("muted", Value::Bool(muted)),
            ("deafened", Value::Bool(deafened)),
            ("joined_at", text("t")),
            ("username", text(name)),
            ("avatar_url", Value::Null),
        ])
    };
    let payload = object(vec![
        ("channel_id", text(C1)),
        (
            "voice_states",
            Value::Array(vec![state(U1, "bob", true, false), state(U2, "eve", false, true)]),
        ),
    ]);
    assert_eq!(event.to_text(), Some(frame("voice_state_update", &payload)));
}

#[test]
fn voice_state_update_of_an_empty_channel() {
    let event = Outbound::VoiceStateUpdate { channel_id: C1.to_string(), occupants: vec![] };
    assert_eq!(
        event.to_text(),
        Some(format!(
            "{{\"type\":\"voice_state_update\",\"payload\":{{\"channel_id\":\"{C1}\",\"voice_states\":[]}}}}"
        ))
    );
}

#[test]
fn voice_state_update_with_a_malformed_occupant_makes_no_frame() {
    let event = Outbound::VoiceStateUpdate {
        channel_id: C1.to_string(),
        occupants: vec![occupant(U1, "bob", false, false), occupant("x", "eve", false, false)],
    };
    assert_eq!(event.to_text(), None);
    let event = Outbound::VoiceStateUpdate { channel_id: "lobby".to_string(), occupants: vec![] };
    assert_eq!(event.to_text(), None);
}

#[test]
fn signal_relays_name_sender_and_target() {
    let sdp = Outbound::SignalSdp {
        from_user_id: U1.to_string(),
        signal: WsSignalSdp {
            target_user_id: id(U2),
            sdp: "v=0".to_string(),
            sdp_type: "answer".to_string(),
        },
    };
    let payload = object(vec![
        ("from_user_id", text(U1)),
        ("target_user_id", text(U2)),
        ("sdp", text("v=0")),
        ("sdp_type", text("answer")),
    ]);
    assert_eq!(sdp.to_text(), Some(frame("signal_sdp", &payload)));

    let ice = Outbound::SignalIce {
        from_user_id: U1.to_string(),
        signal: WsSignalIce {
            target_user_id: id(U2),
            candidate: "cand".to_string(),
            sdp_mid: None,
            sdp_mline_index: Some(3),
        },
    };
    let payload = object(vec![
        ("from_user_id", text(U1)),
        ("target_user_id", text(U2)),
        ("candidate", text("cand")),
        ("sdp_mid", Value::Null),
        ("sdp_mline_index", Value::Number(Number::from(3u64))),
    ]);
    assert_eq!(ice.to_text(), Some(frame("signal_ice", &payload)));
}

#[test]
fn signal_relay_from_a_sender_without_uuid_makes_no_frame() {
    let sdp = Outbound::SignalSdp {
        from_user_id: "bob".to_string(),
        signal: WsSignalSdp { target_user_id: id(U2), sdp: "s".to_string(), sdp_type: "offer".to_string() },
    };
    assert_eq!(sdp.to_text(), None);
}

#[test]
fn message_updated_and_deleted_frame_text() {
    let edited = Outbound::MessageUpdated(WsMessageUpdated {
        message_id: id(M1),
        content: Some("new".to_string()),
        edited_at: Some("1700000000".to_string()),
        pinned: None,
    });
    assert_eq!(
        edited.to_text(),
        Some(format!(
            "{{\"type\":\"message_updated\",\"payload\":{{\"content\":\"new\",\"edited_at\":\"1700000000\",\"message_id\":\"{M1}\",\"pinned\":null}}}}"
        ))
    );
    let deleted = Outbound::MessageDeleted(WsMessageDeleted { message_id: id(M1), channel_id: id(C1) });
    assert_eq!(
        deleted.to_text(),
        Some(format!(
            "{{\"type\":\"message_deleted\",\"payload\":{{\"channel_id\":\"{C1}\",\"message_id\":\"{M1}\"}}}}"
        ))
    );
}

#[test]
fn reaction_updated_frame_text() {
    let event = Outbound::ReactionUpdated(WsReactionUpdated {
        message_id: id(M1),
        reactions: vec![
            ReactionGroup { emoji: "👍".to_string(), count: 2, me: true },
            ReactionGroup { emoji: "x".to_string(), count: -1, me: false },
        ],
    });
    let group = |emoji: &str, count: i64, me: bool| {
        object(vec![
            ("emoji", text(emoji)),
            ("count", Value::Number(Number::from(count))),
            ("me", Value::Bool(me)),
        ])
    };
    let payload = object(vec![
        ("message_id", text(M1)),
        ("reactions", Value::Array(vec![group("👍", 2, true), group("x", -1, false)])),
    ]);
    assert_eq!(event.to_text(), Some(frame("reaction_updated", &payload)));
}

#[test]
fn outbound_tags() {
    assert_eq!(Outbound::AuthSuccess.msg_type(), "auth_success");
    assert_eq!(Outbound::InvalidToken.msg_type(), "error");
    assert_eq!(Outbound::MessageCreated { record: stored_message() }.msg_type(), "message_created");
    assert_eq!(
        Outbound::VoiceStateUpdate { channel_id: C1.to_string(), occupants: vec![] }.msg_type(),
        "voice_state_update"
    );
}

#[test]
fn a_frame_may_be_spread_out_and_escaped() {
    let frame = " {\n \"payload\" : { \"token\" : \"a\\u0041\\n\" } ,\n \"type\" : \"\\u0061uth\" } ";
    assert_eq!(Inbound::decode(frame), Some(Inbound::Auth(WsAuth { token: "aA\n".to_string() })));
}

#[test]
fn of_two_members_of_one_name_the_last_counts() {
    let frame = "{\"type\":\"typing\",\"type\":\"auth\",\"payload\":{\"token\":\"a\",\"token\":\"b\"}}";
    assert_eq!(Inbound::decode(frame), Some(Inbound::Auth(WsAuth { token: "b".to_string() })));
}

#[test]
fn any_frame_can_be_taken_apart() {
    assert_eq!(
        WsEnvelope::from_text("{\"type\":\"dance\",\"payload\":{\"b\":[1, 2],\"a\":null}}"),
        Some(WsEnvelope {
            msg_type: "dance".to_string(),
            payload: "{\"a\":null,\"b\":[1,2]}".to_string(),
        })
    );
    assert_eq!(
        WsEnvelope::from_text("{\"payload\":null,\"type\":\"leave_voice\"}"),
        Some(WsEnvelope { msg_type: "leave_voice".to_string(), payload: "null".to_string() })
    );
    assert_eq!(
        WsEnvelope::from_text("{\"payload\":\"p\\\"q\",\"type\":\"t\"}").map(|e| e.payload),
        Some("\"p\\\"q\"".to_string())
    );
    assert_eq!(WsEnvelope::from_text("{\"type\":\"leave_voice\"}"), None);
    assert_eq!(WsEnvelope::from_text("{\"type\":1,\"payload\":null}"), None);
    assert_eq!(WsEnvelope::from_text("[]"), None);
    let written = Outbound::InvalidToken.to_text().unwrap();
    assert_eq!(WsEnvelope::from_text(&written), Outbound::InvalidToken.envelope());
    assert_eq!(WsEnvelope::from_text(&written).unwrap().to_text(), written);
}

#[test]
fn malformed_auth_frame_text() {
    assert_eq!(
        Outbound::MalformedAuth.to_text(),
        Some("{\"type\":\"error\",\"payload\":{\"message\":\"Malformed auth payload\"}}".to_string())
    );
    assert_eq!(Outbound::MalformedAuth.msg_type(), "error");
    assert_eq!(WsError::malformed_auth().message, "Malformed auth payload");
}

#[test]
fn the_tag_of_a_frame_is_read_whatever_its_payload() {
    assert_eq!(Inbound::tag("{\"type\":\"auth\"}"), Some("auth".to_string()));
    assert_eq!(Inbound::tag("{\"type\":\"dance\",\"payload\":[]}"), Some("dance".to_string()));
    assert_eq!(Inbound::tag("{\"type\":5}"), None);
    assert_eq!(Inbound::tag("{}"), None);
    assert_eq!(Inbound::tag("[]"), None);
    assert_eq!(Inbound::tag("auth"), None);
}

#[test]
fn an_auth_frame_is_malformed_where_it_spells_no_token() {
    for malformed in [
        "{\"type\":\"auth\"}",
        "{\"type\":\"auth\",\"payload\":null}",
        "{\"type\":\"auth\",\"payload\":{}}",
        "{\"type\":\"auth\",\"payload\":{\"token\":1}}",
        "{\"type\":\"auth\",\"payload\":[\"T\"]}",
    ] {
        assert!(Inbound::is_malformed_auth(malformed), "{malformed}");
    }
    for other in [
        "{\"type\":\"auth\",\"payload\":{\"token\":\"T\"}}",
        "{\"type\":\"typing\",\"payload\":{}}",
        "{\"type\":\"AUTH\",\"payload\":{}}",
        "{\"payload\":{}}",
        "auth",
        "",
    ] {
        assert!(!Inbound::is_malformed_auth(other), "{other}");
    }
}

#[test]
fn the_tags_that_a_client_may_send() {
    for tag in [
        "auth",
        "send_message",
        "typing",
        "join_voice",
        "leave_voice",
        "voice_mute_deafen",
        "signal_sdp",
        "signal_ice",
    ] {
        assert!(Inbound::is_known(tag), "{tag}");
    }
    for tag in ["", "Auth", "auth ", "message_created", "error", "dance"] {
        assert!(!Inbound::is_known(tag), "{tag}");
    }
}
