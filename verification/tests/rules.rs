use subspace_hub::auth::{new_user, register, validate_token};
use subspace_hub::ids::Uuid;
use subspace_hub::json::{
    json_integer, find_bool, find_field, find_members, find_optional_text, find_optional_u16, find_text,
    find_unsigned, write_array, write_bool, write_field, write_joined, write_member, write_object,
    write_optional, write_optional_bool, write_optional_integer, Field,
};
use subspace_hub::routes::{file_extension, stored_file_name, turn_test_reply};
use subspace_hub::text::{clone_optional, contains_str, str_eq};

const C: &str = "550e8400-e29b-41d4-a716-446655440000";

#[test]
fn the_test_peer_answers_offers_with_the_same_description() {
    let offer = "{\"type\":\"offer\",\"sdp\":{\"type\":\"offer\",\"sdp\":\"v=0\\r\\n\"}}";
    assert_eq!(
        turn_test_reply(offer),
        Some("{\"sdp\":{\"sdp\":\"v=0\\r\\n\",\"type\":\"offer\"},\"type\":\"answer\"}".to_string())
    );
    assert_eq!(
        turn_test_reply("{ \"sdp\" : \"plain\", \"type\" : \"offer\" }"),
        Some("{\"sdp\":\"plain\",\"type\":\"answer\"}".to_string())
    );
    assert_eq!(
        turn_test_reply("{\"type\":\"offer\",\"sdp\":null}"),
        Some("{\"sdp\":null,\"type\":\"answer\"}".to_string())
    );
}

#[test]
fn the_test_peer_swallows_everything_else() {
    assert_eq!(turn_test_reply("{\"type\":\"offer\"}"), None);
    assert_eq!(turn_test_reply("{\"type\":\"ice\",\"candidate\":{\"candidate\":\"c\"}}"), None);
    assert_eq!(turn_test_reply("{\"type\":\"answer\",\"sdp\":\"x\"}"), None);
    assert_eq!(turn_test_reply("{\"sdp\":\"x\"}"), None);
    assert_eq!(turn_test_reply("{\"type\":7,\"sdp\":\"x\"}"), None);
    assert_eq!(turn_test_reply("[\"offer\"]"), None);
    assert_eq!(turn_test_reply("offer"), None);
    assert_eq!(turn_test_reply(""), None);
}

#[test]
fn file_extensions() {
    assert_eq!(file_extension("photo.png"), "png");
    assert_eq!(file_extension("archive.tar.gz"), "gz");
    assert_eq!(file_extension("noext"), "noext");
    assert_eq!(file_extension("trailing."), "");
    assert_eq!(file_extension(".hidden"), "hidden");
    assert_eq!(file_extension(""), "");
    assert_eq!(file_extension("."), "");
    assert_eq!(file_extension("ünï.çödé"), "çödé");
    assert_eq!(file_extension("unknown"), "unknown");
}

#[test]
fn stored_files_are_named_by_id_and_extension() {
    let id = Uuid::parse_str(C).unwrap();
    assert_eq!(stored_file_name(&id, "cat.jpeg"), format!("{C}.jpeg"));
    assert_eq!(stored_file_name(&id, "a.b.c"), format!("{C}.c"));
    assert_eq!(stored_file_name(&id, "plain"), format!("{C}.plain"));
}

#[test]
fn a_new_user_has_the_default_settings() {
    let id = Uuid::parse_str(C).unwrap();
    let user = new_user(id.clone(), "bob".to_string());
    assert_eq!(user.id, id);
    assert_eq!(user.username, "bob");
    assert_eq!(user.avatar_url, None);
    assert_eq!(user.theme, "dark");
    assert_eq!(user.language, "en");
    assert!(user.notifications_enabled);
    assert_eq!(user.created_at, "");
    assert_eq!(user.updated_at, "");
}

#[test]
fn registration_answers_with_the_user_and_a_token() {
    let id = Uuid::parse_str(C).unwrap();
    let response = register(id.clone(), "bob".to_string(), "secret").unwrap();
    assert_eq!(response.user, new_user(id, "bob".to_string()));
    assert_eq!(validate_token(&response.token, "secret").unwrap().sub, C);
}

fn members() -> Vec<(String, Field)> {
    vec![
        ("a".to_string(), Field::Text("x".to_string())),
        ("b".to_string(), Field::Bool(true)),
        ("c".to_string(), Field::Null),
        ("d".to_string(), Field::Unsigned(65535)),
        ("e".to_string(), Field::Unsigned(65536)),
        ("f".to_string(), Field::Number("-1.5".to_string())),
        ("g".to_string(), Field::Array("[1,\"two\"]".to_string())),
        ("h".to_string(), Field::Object("{\"k\":{\"deep\":true},\"n\":-3}".to_string())),
        ("a".to_string(), Field::Bool(false)),
    ]
}

#[test]
fn members_are_found_by_name_the_first_one_wins() {
    let members = members();
    assert!(matches!(find_field(&members, "a"), Some(Field::Text(s)) if s == "x"));
    assert!(matches!(find_field(&members, "h"), Some(Field::Object(_))));
    assert!(find_field(&members, "z").is_none());
    assert!(find_field(&members, "").is_none());
    assert!(find_field(&vec![], "a").is_none());
}

#[test]
fn members_are_read_by_kind() {
    let members = members();
    assert_eq!(find_text(&members, "a"), Some("x".to_string()));
    assert_eq!(find_text(&members, "b"), None);
    assert_eq!(find_text(&members, "z"), None);
    assert_eq!(find_bool(&members, "b"), Some(true));
    assert_eq!(find_bool(&members, "a"), None);
    assert_eq!(find_unsigned(&members, "d"), Some(65535));
    assert_eq!(find_unsigned(&members, "f"), None);
    assert_eq!(find_unsigned(&members, "a"), None);
}

#[test]
fn an_object_held_by_a_member_is_read_one_level_further() {
    let members = members();
    assert_eq!(
        find_members(&members, "h"),
        Some(vec![
            ("k".to_string(), Field::Object("{\"deep\":true}".to_string())),
            ("n".to_string(), Field::Number("-3".to_string())),
        ])
    );
    assert_eq!(find_members(&members, "g"), None);
    assert_eq!(find_members(&members, "a"), None);
    assert_eq!(find_members(&members, "c"), None);
    assert_eq!(find_members(&members, "z"), None);
}

#[test]
fn what_a_member_holds_is_written_back_as_json() {
    assert_eq!(write_field(&Field::Null), "null");
    assert_eq!(write_field(&Field::Bool(true)), "true");
    assert_eq!(write_field(&Field::Unsigned(u64::MAX)), "18446744073709551615");
    assert_eq!(write_field(&Field::Number("-1.5".to_string())), "-1.5");
    assert_eq!(write_field(&Field::Text("a\"b".to_string())), "\"a\\\"b\"");
    assert_eq!(write_field(&Field::Array("[1]".to_string())), "[1]");
    assert_eq!(write_field(&Field::Object("{}".to_string())), "{}");
}

#[test]
fn optional_members_may_be_missing_or_null_but_not_of_another_kind() {
    let members = members();
    assert_eq!(find_optional_text(&members, "a"), Some(Some("x".to_string())));
    assert_eq!(find_optional_text(&members, "c"), Some(None));
    assert_eq!(find_optional_text(&members, "z"), Some(None));
    assert_eq!(find_optional_text(&members, "b"), None);
    assert_eq!(find_optional_u16(&members, "d"), Some(Some(65535)));
    assert_eq!(find_optional_u16(&members, "e"), None);
    assert_eq!(find_optional_u16(&members, "f"), None);
    assert_eq!(find_optional_u16(&members, "c"), Some(None));
    assert_eq!(find_optional_u16(&members, "z"), Some(None));
    assert_eq!(find_optional_u16(&members, "a"), None);
}

#[test]
fn json_is_written_compactly() {
    assert_eq!(write_member("k", "1"), "\"k\":1");
    assert_eq!(write_joined(&vec![]), "");
    assert_eq!(write_joined(&vec!["a".to_string()]), "a");
    assert_eq!(write_joined(&vec!["a".to_string(), "b".to_string(), "c".to_string()]), "a,b,c");
    assert_eq!(write_object(&vec![]), "{}");
    assert_eq!(write_object(&vec![write_member("k", "1"), write_member("l", "null")]), "{\"k\":1,\"l\":null}");
    assert_eq!(write_array(&vec![]), "[]");
    assert_eq!(write_array(&vec!["1".to_string(), "2".to_string()]), "[1,2]");
    assert_eq!(write_bool(true), "true");
    assert_eq!(write_bool(false), "false");
    assert_eq!(write_optional(&None), "null");
    assert_eq!(write_optional(&Some("a\tb".to_string())), "\"a\\tb\"");
    assert_eq!(write_optional_bool(None), "null");
    assert_eq!(write_optional_bool(Some(false)), "false");
    assert_eq!(write_optional_integer(None), "null");
    assert_eq!(write_optional_integer(Some(-42)), "-42");
    assert_eq!(write_optional_integer(Some(18446744073709551615)), "18446744073709551615");
    assert_eq!(write_optional_integer(Some(0)), "0");
}

#[test]
fn string_helpers() {
    assert_eq!(clone_optional(&Some("a".to_string())), Some("a".to_string()));
    assert_eq!(clone_optional(&None), None);
    let rooms = vec!["R1".to_string(), "R2".to_string()];
    assert!(contains_str(&rooms, "R2"));
    assert!(!contains_str(&rooms, "R"));
    assert!(!contains_str(&rooms, "r1"));
    assert!(!contains_str(&vec![], ""));
}

#[test]
fn integers_are_written_as_serde_json_writes_them() {
    let samples: [i128; 15] = [
        0,
        1,
        9,
        10,
        11,
        99,
        100,
        -1,
        -10,
        1234567890,
        i64::MAX as i128,
        i64::MIN as i128,
        u64::MAX as i128,
        i128::MAX,
        i128::MIN,
    ];
    for n in samples {
        assert_eq!(json_integer(n), serde_json::to_string(&n).unwrap(), "{n}");
    }
    assert_eq!(json_integer(-0), "0");
    assert_eq!(json_integer(1000000), "1000000");
    assert_eq!(
        json_integer(i128::MIN),
        "-170141183460469231731687303715884105728"
    );
}

#[test]
fn strings_are_compared_by_their_characters() {
    assert!(str_eq("", ""));
    assert!(str_eq("room", "room"));
    assert!(!str_eq("room", "Room"));
    assert!(!str_eq("room", "rooms"));
    assert!(!str_eq("", " "));
    assert!(str_eq("é✓", "é✓"));
    assert!(!str_eq("e\u{301}", "é"));
}
