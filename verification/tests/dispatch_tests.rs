use bili_live_chat::client::{handle_frame, ReceiveError};
use bili_live_chat::codec::{frame_packet, DataPack};
use bili_live_chat::dispatch::{dispatch, DispatchError};
use bili_live_chat::json::{parse_json, JsonValue};
use bili_live_chat::message::MessageKind;
use std::io::Write;

#[test]
fn dispatch_classifies_danmu() {
    let body = br#"{"cmd":"DANMU_MSG","info":[null,"hello",[null,"alice"],0,0,0,0,0,0,{"ts":1700000000}]}"#;
    let v = parse_json(body).unwrap();
    let m = dispatch(&v).unwrap().unwrap();
    assert!(matches!(m.kind, MessageKind::DANMU_MSG));
    assert_eq!(m.content, "hello");
    assert_eq!(m.author, "alice");
    assert_eq!(m.timestamp, 1700000000);
}

#[test]
fn dispatch_ignores_unknown_tag() {
    let v = parse_json(br#"{"cmd":"UNKNOWN_TAG"}"#).unwrap();
    assert!(dispatch(&v).unwrap().is_none());
}

#[test]
fn dispatch_ignores_noop_tags() {
    for tag in ["COMBO_SEND", "INTERACT_WORD", "NOTICE_MSG"] {
        let body = format!("{{\"cmd\":\"{}\"}}", tag);
        let v = parse_json(body.as_bytes()).unwrap();
        assert!(dispatch(&v).unwrap().is_none());
    }
}

#[test]
fn dispatch_ignores_missing_cmd() {
    let v = parse_json(br#"{"info":[1,2,3]}"#).unwrap();
    assert!(dispatch(&v).unwrap().is_none());
}

#[test]
fn dispatch_rejects_incomplete_danmu() {
    let v = parse_json(br#"{"cmd":"DANMU_MSG"}"#).unwrap();
    assert_eq!(dispatch(&v).unwrap_err(), DispatchError::MalformedBody);
}

#[test]
fn dispatch_classifies_super_chat() {
    let body = br#"{"cmd":"SUPER_CHAT_MESSAGE","data":{"message":"thanks!","user_info":{"uname":"bob"},"time":60,"end_time":1700000060,"start_time":1700000000}}"#;
    let v = parse_json(body).unwrap();
    let m = dispatch(&v).unwrap().unwrap();
    assert!(matches!(m.kind, MessageKind::SUPER_CHAT_MESSAGE));
    assert_eq!(m.content, "thanks!");
    assert_eq!(m.author, "bob");
    assert_eq!(m.timestamp, 1700000000);
    assert_eq!(m.sc_time, 60);
    assert_eq!(m.sc_end_time, 1700000060);
}

#[test]
fn dispatch_classifies_gift() {
    let body = br#"{"cmd":"SEND_GIFT","data":{"action":"feeds","giftName":"rose","num":3,"uname":"carol","timestamp":1700000000}}"#;
    let v = parse_json(body).unwrap();
    let m = dispatch(&v).unwrap().unwrap();
    assert!(matches!(m.kind, MessageKind::SEND_GIFT));
    assert_eq!(m.content, "feeds");
    assert_eq!(m.gift_name, "rose");
    assert_eq!(m.gift_count, 3);
    assert_eq!(m.author, "carol");
}

#[test]
fn dispatch_works_on_hand_built_value() {
    let info = JsonValue::Arr(vec![
        JsonValue::Null,
        JsonValue::Str("hi".to_owned()),
        JsonValue::Arr(vec![JsonValue::Null, JsonValue::Str("dave".to_owned())]),
        JsonValue::Null,
        JsonValue::Null,
        JsonValue::Null,
        JsonValue::Null,
        JsonValue::Null,
        JsonValue::Null,
        JsonValue::Obj(vec![("ts".to_owned(), JsonValue::Int(7))]),
    ]);
    let v = JsonValue::Obj(vec![
        ("cmd".to_owned(), JsonValue::Str("DANMU_MSG".to_owned())),
        ("info".to_owned(), info),
    ]);
    let m = dispatch(&v).unwrap().unwrap();
    assert_eq!(m.content, "hi");
    assert_eq!(m.author, "dave");
    assert_eq!(m.timestamp, 7);
}

#[test]
fn json_accessors_read_nested_values() {
    let v = parse_json(br#"{"a":{"b":[10,"x",true]},"n":-5}"#).unwrap();
    let b = v.get("a").unwrap().get("b").unwrap();
    assert_eq!(b.at(0).unwrap().as_int(), Some(10));
    assert_eq!(b.at(1).unwrap().as_str().unwrap(), "x");
    assert!(b.at(3).is_none());
    assert_eq!(v.get("n").unwrap().as_int(), Some(-5));
    assert!(v.get("missing").is_none());
    assert!(parse_json(b"not json").is_none());
}

fn zlib_compress(data: &[u8]) -> Vec<u8> {
    let mut enc =
        flate2::write::ZlibEncoder::new(Vec::new(), flate2::Compression::default());
    enc.write_all(data).unwrap();
    enc.finish().unwrap()
}

#[test]
fn handle_frame_decompresses_splits_and_dispatches_in_order() {
    let body_one = br#"{"cmd":"DANMU_MSG","info":[null,"one",[null,"ann"],0,0,0,0,0,0,{"ts":1}]}"#;
    let body_two = br#"{"cmd":"UNKNOWN"}"#;
    let body_three = br#"{"cmd":"DANMU_MSG","info":[null,"two",[null,"ben"],0,0,0,0,0,0,{"ts":2}]}"#;
    let mut inner = frame_packet(DataPack::Normal, body_one, 0);
    inner.extend_from_slice(&frame_packet(DataPack::Normal, body_two, 0));
    inner.extend_from_slice(&frame_packet(DataPack::Normal, body_three, 0));
    let compressed = zlib_compress(inner.as_slice());
    let mut frame = frame_packet(DataPack::Normal, compressed.as_slice(), 0);
    // mark the body as compressed: protocol version 2
    frame[6] = 0;
    frame[7] = 2;
    let events = handle_frame(frame.as_slice()).unwrap();
    assert_eq!(events.len(), 2);
    assert_eq!(events[0].content, "one");
    assert_eq!(events[1].content, "two");
}

#[test]
fn handle_frame_dispatches_plain_frame_as_single_packet() {
    let body = br#"{"cmd":"DANMU_MSG","info":[null,"plain",[null,"eve"],0,0,0,0,0,0,{"ts":3}]}"#;
    let frame = frame_packet(DataPack::Normal, body, 0);
    let events = handle_frame(frame.as_slice()).unwrap();
    assert_eq!(events.len(), 1);
    assert_eq!(events[0].content, "plain");
    assert_eq!(events[0].author, "eve");
}

#[test]
fn handle_frame_ignores_short_frame() {
    let events = handle_frame(&[1, 2, 3]).unwrap();
    assert!(events.is_empty());
}

#[test]
fn handle_frame_reports_corrupt_compression() {
    let mut frame = frame_packet(DataPack::Normal, b"not zlib at all", 0);
    frame[6] = 0;
    frame[7] = 2;
    assert_eq!(handle_frame(frame.as_slice()).unwrap_err(), ReceiveError::Decompress);
}
