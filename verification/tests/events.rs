use indexer_rules_engine::json::JsonMember;
use indexer_rules_engine::types::events::{Event, EventError};

fn text(key: &str, value: &str) -> JsonMember {
    JsonMember {
        key: key.to_string(),
        string: Some(value.to_string()),
        is_null: false,
        json: format!("\"{}\"", value),
    }
}

fn other(key: &str, json: &str) -> JsonMember {
    JsonMember { key: key.to_string(), string: None, is_null: false, json: json.to_string() }
}

fn null(key: &str) -> JsonMember {
    JsonMember { key: key.to_string(), string: None, is_null: true, json: "null".to_string() }
}

fn event(event: &str, standard: &str, version: &str, data: Option<&str>) -> Event {
    Event {
        event: event.to_string(),
        standard: standard.to_string(),
        version: version.to_string(),
        data: data.map(|d| d.to_string()),
    }
}

#[test]
fn event_log_is_parsed() {
    assert_eq!(
        Event::from_log(
            "EVENT_JSON:{\"standard\":\"nep171\",\"version\":\"1.0.0\",\"event\":\"nft_mint\",\"data\":[{\"owner_id\":\"a.near\",\"token_ids\":[\"1\",\"2\"]}]}"
        ),
        Ok(event(
            "nft_mint",
            "nep171",
            "1.0.0",
            Some("[{\"owner_id\":\"a.near\",\"token_ids\":[\"1\",\"2\"]}]")
        ))
    );
}

#[test]
fn data_is_optional() {
    assert_eq!(
        Event::from_log("EVENT_JSON:{\"event\":\"e\",\"standard\":\"s\",\"version\":\"v\"}"),
        Ok(event("e", "s", "v", None))
    );
    assert_eq!(
        Event::from_log(
            "EVENT_JSON:{\"event\":\"e\",\"standard\":\"s\",\"version\":\"v\",\"data\":null}"
        ),
        Ok(event("e", "s", "v", None))
    );
}

#[test]
fn data_is_kept_as_compact_json() {
    let cases = [
        ("\"text\"", "\"text\""),
        ("17", "17"),
        ("-3", "-3"),
        ("true", "true"),
        ("[ 1 , 2 ]", "[1,2]"),
        ("{ \"a\" : { \"b\" : [ ] } }", "{\"a\":{\"b\":[]}}"),
        ("\"line\\nbreak \\u0041\"", "\"line\\nbreak A\""),
        ("{}", "{}"),
    ];
    for (written, kept) in cases {
        let log = format!(
            "EVENT_JSON:{{\"event\":\"e\",\"standard\":\"s\",\"version\":\"v\",\"data\":{}}}",
            written
        );
        assert_eq!(Event::from_log(&log), Ok(event("e", "s", "v", Some(kept))));
    }
}

#[test]
fn strings_are_unescaped() {
    assert_eq!(
        Event::from_log(
            "EVENT_JSON:{\"event\":\"a\\\"b\",\"standard\":\"\\u00e9\",\"version\":\"\"}"
        ),
        Ok(event("a\"b", "é", "", None))
    );
}

#[test]
fn whitespace_around_the_object_is_json_whitespace() {
    assert_eq!(
        Event::from_log(
            "EVENT_JSON: \n\t{ \"event\" : \"e\", \"standard\" : \"s\", \"version\" : \"v\" } \r\n"
        ),
        Ok(event("e", "s", "v", None))
    );
}

#[test]
fn other_members_are_passed_over() {
    assert_eq!(
        Event::from_log(
            "EVENT_JSON:{\"extra\":[1],\"event\":\"e\",\"standard\":\"s\",\"version\":\"v\",\"zzz\":null}"
        ),
        Ok(event("e", "s", "v", None))
    );
}

#[test]
fn log_without_prefix_is_rejected() {
    let logs = [
        "",
        "hello",
        "EVENT_JSON",
        "event_json:{\"event\":\"e\",\"standard\":\"s\",\"version\":\"v\"}",
        " EVENT_JSON:{\"event\":\"e\",\"standard\":\"s\",\"version\":\"v\"}",
        "{\"event\":\"e\",\"standard\":\"s\",\"version\":\"v\"}",
    ];
    for log in logs {
        assert_eq!(Event::from_log(log), Err(EventError::MissingPrefix));
    }
}

#[test]
fn what_is_not_one_object_is_rejected() {
    let logs = [
        "EVENT_JSON:",
        "EVENT_JSON:{",
        "EVENT_JSON:not json",
        "EVENT_JSON:[\"e\",\"s\",\"v\",null]",
        "EVENT_JSON:\"text\"",
        "EVENT_JSON:null",
        "EVENT_JSON:12",
        "EVENT_JSON:{\"event\":\"e\",\"standard\":\"s\",\"version\":\"v\"} trailing",
        "EVENT_JSON:{\"event\":\"e\",\"standard\":\"s\",\"version\":\"v\"}{}",
        "EVENT_JSON:{'event':'e'}",
        "EVENT_JSON:{\"event\":\"e\",}",
    ];
    for log in logs {
        assert_eq!(Event::from_log(log), Err(EventError::NotAnObject), "log {:?}", log);
    }
}

#[test]
fn missing_member_is_rejected() {
    let logs = [
        "EVENT_JSON:{}",
        "EVENT_JSON:{\"standard\":\"s\",\"version\":\"v\"}",
        "EVENT_JSON:{\"event\":\"e\",\"version\":\"v\"}",
        "EVENT_JSON:{\"event\":\"e\",\"standard\":\"s\"}",
        "EVENT_JSON:{\"Event\":\"e\",\"standard\":\"s\",\"version\":\"v\"}",
        "EVENT_JSON:{\"data\":{\"event\":\"e\",\"standard\":\"s\",\"version\":\"v\"}}",
    ];
    for log in logs {
        assert_eq!(Event::from_log(log), Err(EventError::MissingField), "log {:?}", log);
    }
}

#[test]
fn member_of_wrong_type_is_rejected() {
    let logs = [
        "EVENT_JSON:{\"event\":1,\"standard\":\"s\",\"version\":\"v\"}",
        "EVENT_JSON:{\"event\":\"e\",\"standard\":null,\"version\":\"v\"}",
        "EVENT_JSON:{\"event\":\"e\",\"standard\":\"s\",\"version\":[\"v\"]}",
        "EVENT_JSON:{\"event\":\"e\",\"standard\":\"s\",\"version\":{\"v\":1}}",
        "EVENT_JSON:{\"event\":true,\"standard\":\"s\"}",
    ];
    for log in logs {
        assert_eq!(Event::from_log(log), Err(EventError::InvalidField), "log {:?}", log);
    }
}

#[test]
fn first_problem_in_order_event_standard_version_decides() {
    assert_eq!(
        Event::from_log("EVENT_JSON:{\"standard\":1,\"version\":2}"),
        Err(EventError::MissingField)
    );
    assert_eq!(
        Event::from_log("EVENT_JSON:{\"event\":1,\"version\":\"v\"}"),
        Err(EventError::InvalidField)
    );
    assert_eq!(
        Event::from_log("EVENT_JSON:{\"event\":\"e\",\"standard\":1}"),
        Err(EventError::InvalidField)
    );
}

#[test]
fn event_from_members() {
    let members = vec![
        other("data", "{\"amount\":\"5\"}"),
        text("event", "ft_transfer"),
        text("standard", "nep141"),
        text("version", "1.0.0"),
    ];
    assert_eq!(
        Event::from_members(&members),
        Ok(event("ft_transfer", "nep141", "1.0.0", Some("{\"amount\":\"5\"}")))
    );
}

#[test]
fn string_data_is_reported_as_json() {
    let members =
        vec![text("data", "plain"), text("event", "e"), text("standard", "s"), text("version", "v")];
    assert_eq!(Event::from_members(&members), Ok(event("e", "s", "v", Some("\"plain\""))));
}

#[test]
fn null_data_is_no_data() {
    let members = vec![null("data"), text("event", "e"), text("standard", "s"), text("version", "v")];
    assert_eq!(Event::from_members(&members), Ok(event("e", "s", "v", None)));
}

#[test]
fn members_missing_or_of_wrong_type() {
    assert_eq!(Event::from_members(&vec![]), Err(EventError::MissingField));
    assert_eq!(
        Event::from_members(&vec![text("event", "e"), text("standard", "s")]),
        Err(EventError::MissingField)
    );
    assert_eq!(
        Event::from_members(&vec![text("event", "e"), null("standard"), text("version", "v")]),
        Err(EventError::InvalidField)
    );
    assert_eq!(
        Event::from_members(&vec![other("event", "1"), text("standard", "s"), text("version", "v")]),
        Err(EventError::InvalidField)
    );
}

#[test]
fn first_member_of_a_name_counts() {
    let members = vec![
        text("event", "first"),
        text("event", "second"),
        text("standard", "s"),
        text("version", "v"),
    ];
    assert_eq!(Event::from_members(&members), Ok(event("first", "s", "v", None)));
}
