//! Typed events produced by the dispatcher and consumed by the
//! presentation layer.

use vstd::prelude::*;

verus! {

/// The command tags the dispatcher recognizes.
#[allow(non_camel_case_types)]
#[derive(Debug, Clone, Copy, PartialEq, Eq, Structural)]
pub enum MessageKind {
    DANMU_MSG,
    COMBO_SEND,
    SEND_GIFT,
    INTERACT_WORD,
    NOTICE_MSG,
    SUPER_CHAT_MESSAGE,
}

/// One decoded event. `timestamp` is the Unix second the event carries.
/// The gift fields are meaningful only for `SEND_GIFT` (where `content`
/// holds the gift action text), the super-chat fields only for
/// `SUPER_CHAT_MESSAGE`; elsewhere they stay empty and zero.
#[derive(Debug)]
pub struct Message {
    pub kind: MessageKind,
    pub content: String,
    pub author: String,
    pub timestamp: u64,
    pub gift_name: String,
    pub gift_count: i64,
    pub sc_time: i64,
    pub sc_end_time: i64,
}

/// The mathematical image of a [`Message`]: the same fields with strings as
/// character sequences.
pub ghost struct MessageSpec {
    pub kind: MessageKind,
    pub content: Seq<char>,
    pub author: Seq<char>,
    pub timestamp: u64,
    pub gift_name: Seq<char>,
    pub gift_count: i64,
    pub sc_time: i64,
    pub sc_end_time: i64,
}

impl View for Message {
    type V = MessageSpec;

    open spec fn view(&self) -> MessageSpec {
        MessageSpec {
            kind: self.kind,
            content: self.content@,
            author: self.author@,
            timestamp: self.timestamp,
            gift_name: self.gift_name@,
            gift_count: self.gift_count,
            sc_time: self.sc_time,
            sc_end_time: self.sc_end_time,
        }
    }
}

impl DeepView for Message {
    type V = MessageSpec;

    open spec fn deep_view(&self) -> MessageSpec {
        self.view()
    }
}

impl Message {
    /// A plain event with no gift or super-chat payload.
    pub fn new(kind: MessageKind, content: String, author: String, timestamp: u64) -> (m: Message)
        ensures
            m@ == (MessageSpec {
                kind,
                content: content@,
                author: author@,
                timestamp,
                gift_name: Seq::<char>::empty(),
                gift_count: 0,
                sc_time: 0,
                sc_end_time: 0,
            }),
    {
        Message {
            kind,
            content,
            author,
            timestamp,
            gift_name: String::new(),
            gift_count: 0,
            sc_time: 0,
            sc_end_time: 0,
        }
    }

    /// The validity check of a super chat against the given clock reading:
    /// for a super chat whose expiry lies in the future, the content, the
    /// author, the expiry timestamp and the seconds of display time left;
    /// `None` for an expired super chat or any other event kind.
    pub fn parse_sc_at(&self, now_ts: i64) -> (r: Option<(&str, &str, i64, i64)>)
        ensures
            match r {
                Some(t) => {
                    &&& self@.kind == MessageKind::SUPER_CHAT_MESSAGE
                    &&& self@.sc_end_time - now_ts > 0
                    &&& t.0@ == self@.content
                    &&& t.1@ == self@.author
                    &&& t.2 == self@.sc_end_time
                    &&& t.3 == if self@.sc_end_time - now_ts > i64::MAX {
                        i64::MAX as int
                    } else {
                        self@.sc_end_time - now_ts
                    }
                    &&& t.3 > 0
                },
                None => self@.kind != MessageKind::SUPER_CHAT_MESSAGE || self@.sc_end_time - now_ts
                    <= 0,
            },
    {
        match self.kind {
            MessageKind::SUPER_CHAT_MESSAGE => {
                let left: i64 = match self.sc_end_time.checked_sub(now_ts) {
                    Some(l) => l,
                    None => if self.sc_end_time >= 0 {
                        i64::MAX
                    } else {
                        i64::MIN
                    },
                };
                if left <= 0 {
                    None
                } else {
                    Some((self.content.as_str(), self.author.as_str(), self.sc_end_time, left))
                }
            },
            _ => None,
        }
    }

    /// The validity check of a super chat against the clock now. Which
    /// events pass depends on the clock; what is handed back for a passing
    /// super chat does not: its content, author and expiry, with a positive
    /// display time left. Every event of another kind yields `None`.
    pub fn parse_sc(&self) -> (r: Option<(&str, &str, i64, i64)>)
        ensures
            self@.kind != MessageKind::SUPER_CHAT_MESSAGE ==> r is None,
            r matches Some(t) ==> {
                &&& t.0@ == self@.content
                &&& t.1@ == self@.author
                &&& t.2 == self@.sc_end_time
                &&& t.3 > 0
            },
    {
        let now: i64 = crate::time::now_timestamp();
        self.parse_sc_at(now)
    }
}

} // verus!
