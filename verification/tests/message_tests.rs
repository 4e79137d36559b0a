use bili_live_chat::config::{resolve_config, Config};
use bili_live_chat::credential::Credential;
use bili_live_chat::json::parse_json;
use bili_live_chat::message::{Message, MessageKind};
use bili_live_chat::room::{parse_rank_info, rank_info_from_json, room_info_from_json, LiveRoom};
use bili_live_chat::time::{
    duration_between, duration_parts, timestamp_to_datetime_utc8, timestamp_to_time_minutes,
};

fn super_chat(end_time: i64) -> Message {
    let mut m = Message::new(
        MessageKind::SUPER_CHAT_MESSAGE,
        "what a stream".to_owned(),
        "frank".to_owned(),
        1700000000,
    );
    m.sc_time = 60;
    m.sc_end_time = end_time;
    m
}

#[test]
fn expired_super_chat_is_suppressed() {
    let now = 1700000100;
    // expiry in the past: left display time would be <= 0
    assert!(super_chat(1700000050).parse_sc_at(now).is_none());
    assert!(super_chat(now).parse_sc_at(now).is_none());
}

#[test]
fn live_super_chat_reports_time_left() {
    let now = 1700000100;
    let m = super_chat(1700000160);
    let (content, author, end, left) = m.parse_sc_at(now).unwrap();
    assert_eq!(content, "what a stream");
    assert_eq!(author, "frank");
    assert_eq!(end, 1700000160);
    assert_eq!(left, 60);
}

#[test]
fn parse_sc_ignores_other_kinds() {
    let m = Message::new(MessageKind::DANMU_MSG, "x".to_owned(), "y".to_owned(), 0);
    assert!(m.parse_sc().is_none());
    assert!(m.parse_sc_at(0).is_none());
}

#[test]
fn clock_time_in_utc8() {
    let t = timestamp_to_datetime_utc8(1700000000);
    assert_eq!(t.hour, 6);
    assert_eq!(t.minute, 13);
    let midnight = timestamp_to_datetime_utc8(0);
    assert_eq!(midnight.hour, 8);
    assert_eq!(midnight.minute, 0);
}

#[test]
fn durations_in_minutes() {
    assert_eq!(timestamp_to_time_minutes(3601), 60);
    assert_eq!(duration_between(100, 3800), 61);
    assert_eq!(duration_between(3800, 100), 0);
    assert_eq!(duration_parts(61), (1, 1));
    assert_eq!(duration_parts(125), (2, 5));
}

#[test]
fn room_info_reads_typed_fields() {
    let body = br#"{"data":{
        "room_info":{"uid":42,"room_id":7,"title":"a title","tags":"t1,t2",
            "description":"hello","area_name":"area","parent_area_name":"parent",
            "live_start_time":1700000000},
        "watched_show":{"num":321},
        "anchor_info":{"relation_info":{"attention":5},"base_info":{"uname":"host"}},
        "like_info_v3":{"total_likes":99},
        "online_gold_rank_info_v2":{"list":[{"uname":"u1"},{"uname":"u2"},{"score":1}]}
    }}"#;
    let v = parse_json(body).unwrap();
    let info = room_info_from_json(&v).unwrap();
    assert_eq!(info.ruid, 42);
    assert_eq!(info.room_id, 7);
    assert_eq!(info.title, "a title");
    assert_eq!(info.description, "hello");
    assert_eq!(info.live_start_time, 1700000000);
    assert_eq!(info.watched_show, 321);
    assert_eq!(info.attention, 5);
    assert_eq!(info.uname, "host");
    assert_eq!(info.total_likes, 99);
    assert_eq!(info.rank_info, vec!["u1".to_owned(), "u2".to_owned()]);
}

#[test]
fn room_info_requires_every_field() {
    let v = parse_json(br#"{"data":{"room_info":{"uid":42}}}"#).unwrap();
    assert!(room_info_from_json(&v).is_none());
}

#[test]
fn rank_info_skips_malformed_entries() {
    let body = br#"{"data":{"OnlineRankItem":[
        {"name":"alice","guard_level":1,"score":100},
        {"name":"noscore","guard_level":2},
        {"name":"bob","guard_level":0,"score":55}
    ]}}"#;
    let v = parse_json(body).unwrap();
    let entries = rank_info_from_json(&v);
    assert_eq!(entries.len(), 2);
    assert_eq!(entries[0].name, "alice");
    assert_eq!(entries[0].guard_level, 1);
    assert_eq!(entries[0].score, 100);
    assert_eq!(entries[1].name, "bob");
    let empty = rank_info_from_json(&parse_json(br#"{"data":{}}"#).unwrap());
    assert!(empty.is_empty());
}

#[test]
fn parse_rank_info_joins_names() {
    let v = parse_json(br#"[{"uname":"u1"},{"other":1},{"uname":"u2"}]"#).unwrap();
    assert_eq!(parse_rank_info(&v), Some(vec!["u1".to_owned(), "u2".to_owned()]));
    let not_array = parse_json(br#"{"uname":"u1"}"#).unwrap();
    assert_eq!(parse_rank_info(&not_array), None);
}

#[test]
fn live_room_holds_its_identity() {
    let room = LiveRoom::new(5, Credential::new());
    assert_eq!(room.room_display_id, 5);
    assert_eq!(room.credential.session_data, "");
}

#[test]
fn credential_from_vec_needs_exactly_three() {
    let three = vec!["a".to_owned(), "b".to_owned(), "c".to_owned()];
    let c = Credential::from_vec(&three).unwrap();
    assert_eq!(c.session_data, "a");
    assert_eq!(c.bili_jct, "b");
    assert_eq!(c.buvid3, "c");
    let four = vec!["a".to_owned(), "b".to_owned(), "c".to_owned(), "d".to_owned()];
    assert!(Credential::from_vec(&four).is_none());
}

#[test]
fn cookies_carry_all_three_values() {
    let c = Credential {
        session_data: "s".to_owned(),
        bili_jct: "j".to_owned(),
        buvid3: "b".to_owned(),
    };
    let cookies = c.get_cookies().unwrap();
    assert_eq!(cookies.get("SESSDATA").map(String::as_str), Some("s"));
    assert_eq!(cookies.get("bili_jct").map(String::as_str), Some("j"));
    assert_eq!(cookies.get("buvid3").map(String::as_str), Some("b"));
}

fn conf(s: &str, j: &str, b: &str) -> Config {
    Config {
        credential: Credential {
            session_data: s.to_owned(),
            bili_jct: j.to_owned(),
            buvid3: b.to_owned(),
        },
    }
}

#[test]
fn config_flags_override_loaded_file() {
    let out = resolve_config(
        Some(conf("s0", "j0", "b0")),
        Some("s1".to_owned()),
        None,
        Some("b1".to_owned()),
    )
    .unwrap();
    assert_eq!(out.credential.session_data, "s1");
    assert_eq!(out.credential.bili_jct, "j0");
    assert_eq!(out.credential.buvid3, "b1");
}

#[test]
fn config_from_flags_alone_needs_all_three() {
    let out = resolve_config(
        None,
        Some("s".to_owned()),
        Some("j".to_owned()),
        Some("b".to_owned()),
    )
    .unwrap();
    assert_eq!(out.credential.session_data, "s");
    assert!(resolve_config(None, Some("s".to_owned()), None, Some("b".to_owned())).is_none());
    assert!(resolve_config(None, None, None, None).is_none());
}
