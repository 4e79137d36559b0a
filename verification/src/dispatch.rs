//! The event dispatcher: classifies one decoded JSON body by its `cmd` tag
//! and extracts the typed event it carries. Unrecognized tags are dropped
//! without error; a recognized tag whose body is missing a required field
//! is a `MalformedBody` error, isolated to that one body.

use vstd::prelude::*;
use crate::json::JsonValue;
use crate::message::{Message, MessageKind, MessageSpec};

verus! {

/// A recognized command tag whose body is missing required fields.
#[derive(Debug, Clone, Copy, PartialEq, Eq, Structural)]
pub enum DispatchError {
    MalformedBody,
}

/// Field lookup lifted over an optional value.
pub open spec fn opt_get(o: Option<JsonValue>, key: Seq<char>) -> Option<JsonValue> {
    match o {
        Some(v) => v.spec_get(key),
        None => None,
    }
}

/// Array indexing lifted over an optional value.
pub open spec fn opt_at(o: Option<JsonValue>, i: int) -> Option<JsonValue> {
    match o {
        Some(v) => v.spec_at(i),
        None => None,
    }
}

/// String contents lifted over an optional value.
pub open spec fn opt_str(o: Option<JsonValue>) -> Option<Seq<char>> {
    match o {
        Some(v) => v.spec_str(),
        None => None,
    }
}

/// Integer contents lifted over an optional value.
pub open spec fn opt_int(o: Option<JsonValue>) -> Option<i64> {
    match o {
        Some(v) => v.spec_int(),
        None => None,
    }
}

/// The command tag of a body: its `cmd` field, when that is a string.
pub open spec fn cmd_of(v: JsonValue) -> Option<Seq<char>> {
    opt_str(v.spec_get("cmd"@))
}

/// The event a `DANMU_MSG` body yields: content from `info[1]`, author from
/// `info[2][1]`, timestamp from `info[9].ts`, which must be a non-negative
/// integer.
pub open spec fn danmu_spec(v: JsonValue) -> Result<Option<MessageSpec>, DispatchError> {
    let content = opt_str(opt_at(v.spec_get("info"@), 1));
    let author = opt_str(opt_at(opt_at(v.spec_get("info"@), 2), 1));
    let ts = opt_int(opt_get(opt_at(v.spec_get("info"@), 9), "ts"@));
    match (content, author, ts) {
        (Some(c), Some(a), Some(t)) => if t >= 0 {
            Ok(
                Some(
                    MessageSpec {
                        kind: MessageKind::DANMU_MSG,
                        content: c,
                        author: a,
                        timestamp: t as u64,
                        gift_name: Seq::<char>::empty(),
                        gift_count: 0,
                        sc_time: 0,
                        sc_end_time: 0,
                    },
                ),
            )
        } else {
            Err(DispatchError::MalformedBody)
        },
        _ => Err(DispatchError::MalformedBody),
    }
}

/// The event a `SUPER_CHAT_MESSAGE` body yields: content from
/// `data.message`, author from `data.user_info.uname`, display duration
/// from `data.time`, expiry from `data.end_time`, and the event timestamp
/// from `data.start_time`, which must be a non-negative integer.
pub open spec fn super_chat_spec(v: JsonValue) -> Result<Option<MessageSpec>, DispatchError> {
    let data = v.spec_get("data"@);
    let content = opt_str(opt_get(data, "message"@));
    let author = opt_str(opt_get(opt_get(data, "user_info"@), "uname"@));
    let time = opt_int(opt_get(data, "time"@));
    let end = opt_int(opt_get(data, "end_time"@));
    let start = opt_int(opt_get(data, "start_time"@));
    match (content, author, time, end, start) {
        (Some(c), Some(a), Some(ti), Some(e), Some(s)) => if s >= 0 {
            Ok(
                Some(
                    MessageSpec {
                        kind: MessageKind::SUPER_CHAT_MESSAGE,
                        content: c,
                        author: a,
                        timestamp: s as u64,
                        gift_name: Seq::<char>::empty(),
                        gift_count: 0,
                        sc_time: ti,
                        sc_end_time: e,
                    },
                ),
            )
        } else {
            Err(DispatchError::MalformedBody)
        },
        _ => Err(DispatchError::MalformedBody),
    }
}

/// The event a `SEND_GIFT` body yields: the action text as content, the
/// gift name and count, the sender as author, and the timestamp from
/// `data.timestamp`, which must be a non-negative integer. The count must
/// be an integer too: a fractional `num` decodes as `Null` and malforms
/// the body.
pub open spec fn gift_spec(v: JsonValue) -> Result<Option<MessageSpec>, DispatchError> {
    let data = v.spec_get("data"@);
    let action = opt_str(opt_get(data, "action"@));
    let name = opt_str(opt_get(data, "giftName"@));
    let num = opt_int(opt_get(data, "num"@));
    let uname = opt_str(opt_get(data, "uname"@));
    let ts = opt_int(opt_get(data, "timestamp"@));
    match (action, name, num, uname, ts) {
        (Some(ac), Some(n), Some(cnt), Some(u), Some(t)) => if t >= 0 {
            Ok(
                Some(
                    MessageSpec {
                        kind: MessageKind::SEND_GIFT,
                        content: ac,
                        author: u,
                        timestamp: t as u64,
                        gift_name: n,
                        gift_count: cnt,
                        sc_time: 0,
                        sc_end_time: 0,
                    },
                ),
            )
        } else {
            Err(DispatchError::MalformedBody)
        },
        _ => Err(DispatchError::MalformedBody),
    }
}

/// What dispatching a body yields. A body without a string `cmd` field and
/// a body with an unrecognized tag produce no event and no error; the three
/// no-op tags `COMBO_SEND`, `INTERACT_WORD` and `NOTICE_MSG` fall under the
/// same case by design.
pub open spec fn dispatch_spec(v: JsonValue) -> Result<Option<MessageSpec>, DispatchError> {
    match cmd_of(v) {
        None => Ok(None),
        Some(cmd) => if cmd == "DANMU_MSG"@ {
            danmu_spec(v)
        } else if cmd == "SUPER_CHAT_MESSAGE"@ {
            super_chat_spec(v)
        } else if cmd == "SEND_GIFT"@ {
            gift_spec(v)
        } else {
            Ok(None)
        },
    }
}

fn dispatch_danmu(v: &JsonValue) -> (r: Result<Option<Message>, DispatchError>)
    ensures
        match r {
            Ok(Some(m)) => danmu_spec(*v) == Ok::<Option<MessageSpec>, DispatchError>(Some(m@)),
            Ok(None) => danmu_spec(*v) == Ok::<Option<MessageSpec>, DispatchError>(None),
            Err(e) => danmu_spec(*v) == Err::<Option<MessageSpec>, DispatchError>(e),
        },
{
    let info = v.get("info");
    let content = match info {
        Some(i) => i.at(1),
        None => None,
    };
    let content = match content {
        Some(c) => c.as_str(),
        None => None,
    };
    let author_entry = match info {
        Some(i) => i.at(2),
        None => None,
    };
    let author = match author_entry {
        Some(a) => a.at(1),
        None => None,
    };
    let author = match author {
        Some(a) => a.as_str(),
        None => None,
    };
    let ts_obj = match info {
        Some(i) => i.at(9),
        None => None,
    };
    let ts_val = match ts_obj {
        Some(o) => o.get("ts"),
        None => None,
    };
    let ts = match ts_val {
        Some(t) => t.as_int(),
        None => None,
    };
    match (content, author, ts) {
        (Some(c), Some(a), Some(t)) => {
            if t >= 0 {
                Ok(
                    Some(
                        Message {
                            kind: MessageKind::DANMU_MSG,
                            content: c.clone(),
                            author: a.clone(),
                            timestamp: t as u64,
                            gift_name: String::new(),
                            gift_count: 0,
                            sc_time: 0,
                            sc_end_time: 0,
                        },
                    ),
                )
            } else {
                Err(DispatchError::MalformedBody)
            }
        },
        _ => Err(DispatchError::MalformedBody),
    }
}

fn dispatch_super_chat(v: &JsonValue) -> (r: Result<Option<Message>, DispatchError>)
    ensures
        match r {
            Ok(Some(m)) => super_chat_spec(*v) == Ok::<Option<MessageSpec>, DispatchError>(
                Some(m@),
            ),
            Ok(None) => super_chat_spec(*v) == Ok::<Option<MessageSpec>, DispatchError>(None),
            Err(e) => super_chat_spec(*v) == Err::<Option<MessageSpec>, DispatchError>(e),
        },
{
    let data = v.get("data");
    let content = match data {
        Some(d) => d.get("message"),
        None => None,
    };
    let content = match content {
        Some(c) => c.as_str(),
        None => None,
    };
    let user_info = match data {
        Some(d) => d.get("user_info"),
        None => None,
    };
    let author = match user_info {
        Some(u) => u.get("uname"),
        None => None,
    };
    let author = match author {
        Some(a) => a.as_str(),
        None => None,
    };
    let time = match data {
        Some(d) => d.get("time"),
        None => None,
    };
    let time = match time {
        Some(t) => t.as_int(),
        None => None,
    };
    let end = match data {
        Some(d) => d.get("end_time"),
        None => None,
    };
    let end = match end {
        Some(e) => e.as_int(),
        None => None,
    };
    let start = match data {
        Some(d) => d.get("start_time"),
        None => None,
    };
    let start = match start {
        Some(s) => s.as_int(),
        None => None,
    };
    match (content, author, time, end, start) {
        (Some(c), Some(a), Some(ti), Some(e), Some(s)) => {
            if s >= 0 {
                Ok(
                    Some(
                        Message {
                            kind: MessageKind::SUPER_CHAT_MESSAGE,
                            content: c.clone(),
                            author: a.clone(),
                            timestamp: s as u64,
                            gift_name: String::new(),
                            gift_count: 0,
                            sc_time: ti,
                            sc_end_time: e,
                        },
                    ),
                )
            } else {
                Err(DispatchError::MalformedBody)
            }
        },
        _ => Err(DispatchError::MalformedBody),
    }
}

fn dispatch_gift(v: &JsonValue) -> (r: Result<Option<Message>, DispatchError>)
    ensures
        match r {
            Ok(Some(m)) => gift_spec(*v) == Ok::<Option<MessageSpec>, DispatchError>(Some(m@)),
            Ok(None) => gift_spec(*v) == Ok::<Option<MessageSpec>, DispatchError>(None),
            Err(e) => gift_spec(*v) == Err::<Option<MessageSpec>, DispatchError>(e),
        },
{
    let data = v.get("data");
    let action = match data {
        Some(d) => d.get("action"),
        None => None,
    };
    let action = match action {
        Some(a) => a.as_str(),
        None => None,
    };
    let name = match data {
        Some(d) => d.get("giftName"),
        None => None,
    };
    let name = match name {
        Some(n) => n.as_str(),
        None => None,
    };
    let num = match data {
        Some(d) => d.get("num"),
        None => None,
    };
    let num = match num {
        Some(n) => n.as_int(),
        None => None,
    };
    let uname = match data {
        Some(d) => d.get("uname"),
        None => None,
    };
    let uname = match uname {
        Some(u) => u.as_str(),
        None => None,
    };
    let ts = match data {
        Some(d) => d.get("timestamp"),
        None => None,
    };
    let ts = match ts {
        Some(t) => t.as_int(),
        None => None,
    };
    match (action, name, num, uname, ts) {
        (Some(ac), Some(n), Some(cnt), Some(u), Some(t)) => {
            if t >= 0 {
                Ok(
                    Some(
                        Message {
                            kind: MessageKind::SEND_GIFT,
                            content: ac.clone(),
                            author: u.clone(),
                            timestamp: t as u64,
                            gift_name: n.clone(),
                            gift_count: cnt,
                            sc_time: 0,
                            sc_end_time: 0,
                        },
                    ),
                )
            } else {
                Err(DispatchError::MalformedBody)
            }
        },
        _ => Err(DispatchError::MalformedBody),
    }
}

/// Classifies one decoded JSON body and extracts its event, as
/// [`dispatch_spec`] describes: `Ok(Some(..))` for a recognized tag with a
/// complete body, `Ok(None)` for an unrecognized or no-op tag, and
/// `MalformedBody` only for a recognized tag with required fields missing.
pub fn dispatch(v: &JsonValue) -> (r: Result<Option<Message>, DispatchError>)
    ensures
        match r {
            Ok(Some(m)) => dispatch_spec(*v) == Ok::<Option<MessageSpec>, DispatchError>(Some(m@)),
            Ok(None) => dispatch_spec(*v) == Ok::<Option<MessageSpec>, DispatchError>(None),
            Err(e) => dispatch_spec(*v) == Err::<Option<MessageSpec>, DispatchError>(e),
        },
{
    let cmd_val = v.get("cmd");
    let cmd = match cmd_val {
        Some(c) => c.as_str(),
        None => None,
    };
    let cmd = match cmd {
        Some(c) => c,
        None => {
            return Ok(None);
        },
    };
    if crate::json::str_eq(cmd.as_str(), "DANMU_MSG") {
        dispatch_danmu(v)
    } else if crate::json::str_eq(cmd.as_str(), "SUPER_CHAT_MESSAGE") {
        dispatch_super_chat(v)
    } else if crate::json::str_eq(cmd.as_str(), "SEND_GIFT") {
        dispatch_gift(v)
    } else {
        Ok(None)
    }
}

} // verus!
