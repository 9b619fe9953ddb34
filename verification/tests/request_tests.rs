use rusty_chat::request::{bearer_token, query_value, request_room_name, request_token, RequestError};

#[test]
fn value_of_a_key_in_the_query() {
    assert_eq!(query_value("token=abc&room_id=r1", "token"), Some("abc"));
    assert_eq!(query_value("token=abc&room_id=r1", "room_id"), Some("r1"));
    assert_eq!(query_value("token=abc&room_id=r1", "user"), None);
}

#[test]
fn empty_query_has_no_values() {
    assert_eq!(query_value("", "token"), None);
    assert_eq!(query_value("&&", "token"), None);
}

#[test]
fn key_without_a_value_is_passed_over() {
    assert_eq!(query_value("token", "token"), None);
    assert_eq!(query_value("token&token=x", "token"), Some("x"));
}

#[test]
fn empty_value_counts() {
    assert_eq!(query_value("token=", "token"), Some(""));
    assert_eq!(query_value("token=&token=x", "token"), Some(""));
}

#[test]
fn first_segment_with_the_key_decides() {
    assert_eq!(query_value("a=1&token=first&token=second", "token"), Some("first"));
}

#[test]
fn value_ends_at_the_next_equals_sign() {
    assert_eq!(query_value("token=a=b&x=y", "token"), Some("a"));
}

#[test]
fn key_must_match_whole() {
    assert_eq!(query_value("mytoken=1&tokens=2&toke=3", "token"), None);
    assert_eq!(query_value("=v", ""), Some("v"));
}

#[test]
fn value_may_hold_any_characters() {
    assert_eq!(query_value("name=J\u{fc}rgen \u{1f600}&x=1", "name"), Some("J\u{fc}rgen \u{1f600}"));
    assert_eq!(query_value("name=J\u{fc}rgen&x=\u{2603}", "x"), Some("\u{2603}"));
}

#[test]
fn bearer_header_gives_its_token() {
    assert_eq!(bearer_token("Bearer abc.def"), Some("abc.def"));
    assert_eq!(bearer_token("Bearer "), Some(""));
}

#[test]
fn other_headers_give_no_token() {
    assert_eq!(bearer_token("Basic abc"), None);
    assert_eq!(bearer_token("bearer abc"), None);
    assert_eq!(bearer_token("Bearer"), None);
    assert_eq!(bearer_token(""), None);
}

#[test]
fn header_token_goes_before_the_query_token() {
    assert_eq!(request_token(Some("Bearer h"), "token=q"), Ok("h"));
    assert_eq!(request_token(Some("Basic h"), "token=q"), Ok("q"));
    assert_eq!(request_token(None, "room_id=r&token=q"), Ok("q"));
}

#[test]
fn request_without_a_token_is_turned_down() {
    assert_eq!(request_token(None, ""), Err(RequestError::MissingToken));
    assert_eq!(request_token(Some("Basic h"), "room_id=r"), Err(RequestError::MissingToken));
}

#[test]
fn room_of_a_request_is_whatever_it_names() {
    assert_eq!(request_room_name("token=t&room_id=r1"), "r1");
    assert_eq!(request_room_name("room_id=general&token=t"), "general");
    assert_eq!(
        request_room_name("token=t&room_id=a1a2a3a4-b1b2-c1c2-d1d2-d3d4d5d6d7d8"),
        "a1a2a3a4-b1b2-c1c2-d1d2-d3d4d5d6d7d8"
    );
    assert_eq!(request_room_name("room_id=caf\u{e9} \u{2603}"), "caf\u{e9} \u{2603}");
}

#[test]
fn request_without_a_room_gets_the_default_room() {
    assert_eq!(request_room_name("token=t"), "default");
    assert_eq!(request_room_name(""), "default");
    assert_eq!(request_room_name("room_id"), "default");
}

#[test]
fn room_named_default_is_the_default_room() {
    assert_eq!(request_room_name("room_id=default"), "default");
}

#[test]
fn first_room_id_with_a_value_decides() {
    assert_eq!(request_room_name("room_id&room_id=a&room_id=b"), "a");
    assert_eq!(request_room_name("room_id=&room_id=b"), "");
    assert_eq!(request_room_name("room_id=a=b"), "a");
}
