//! The protocol client's decision logic: resolving a session from the
//! directory's JSON answer, ordered failover over the candidate servers,
//! the connection state machine, the outbound authentication and heartbeat
//! packets, and the inbound frame pipeline (decompress, split, dispatch).
//!
//! Everything here is a function from plain values to plain values; the
//! sockets, clocks and HTTP calls that feed it live outside the library.

use vstd::prelude::*;
use crate::codec::{header_bytes, header_of, split_spec, DataPack, FrameError};
use crate::compress::inflate_of;
use crate::dispatch::{dispatch_spec, opt_get, opt_int, opt_str};
use crate::json::{json_parse, JsonValue};
use crate::message::{Message, MessageSpec};

verus! {

/// Resolving a room into a session failed: the directory endpoint could not
/// be reached, or its answer was missing required fields.
#[derive(Debug, Clone, Copy, PartialEq, Eq, Structural)]
pub enum DirectoryError {
    Unreachable,
    MalformedResponse,
}

/// Establishing or using the transport failed: every candidate server
/// refused the connection, or the socket closed.
#[derive(Debug, Clone, Copy, PartialEq, Eq, Structural)]
pub enum TransportError {
    AllCandidatesFailed,
    Closed,
}

/// A platform account as its profile endpoint describes it.
#[derive(Debug)]
pub struct Account {
    pub mid: i64,
    pub uname: String,
    pub user_id: String,
    pub sign: String,
    pub brithday: String,
    pub sex: String,
    pub nick_free: bool,
    pub rank: String,
}

/// One candidate chat server as the directory lists it.
#[derive(Debug, Clone)]
pub struct HostServer {
    pub host: String,
    pub port: u32,
    pub ws_port: u32,
    pub wss_port: u32,
}

/// The mathematical image of a [`HostServer`].
pub ghost struct HostServerSpec {
    pub host: Seq<char>,
    pub port: u32,
    pub ws_port: u32,
    pub wss_port: u32,
}

impl View for HostServer {
    type V = HostServerSpec;

    open spec fn view(&self) -> HostServerSpec {
        HostServerSpec {
            host: self.host@,
            port: self.port,
            ws_port: self.ws_port,
            wss_port: self.wss_port,
        }
    }
}

impl DeepView for HostServer {
    type V = HostServerSpec;

    open spec fn deep_view(&self) -> HostServerSpec {
        self.view()
    }
}

/// Everything one connection attempt needs: the room, its session token and
/// the ordered candidate servers. `host_index` is the candidate the
/// transport ended up bound to, `None` until then. The order of
/// `host_list` is the failover order.
#[derive(Debug)]
pub struct Session {
    pub room_id: u32,
    pub token: String,
    pub host_list: Vec<HostServer>,
    pub host_index: Option<usize>,
}

/// The mathematical image of a [`Session`].
pub ghost struct SessionSpec {
    pub room_id: u32,
    pub token: Seq<char>,
    pub host_list: Seq<HostServerSpec>,
    pub host_index: Option<usize>,
}

impl View for Session {
    type V = SessionSpec;

    open spec fn view(&self) -> SessionSpec {
        SessionSpec {
            room_id: self.room_id,
            token: self.token@,
            host_list: self.host_list.deep_view(),
            host_index: self.host_index,
        }
    }
}

/// The candidate server one entry of the directory's `host_list` describes:
/// a `host` string and three ports, each a non-negative integer that fits
/// in 32 bits; anything else is no candidate.
pub open spec fn host_spec(v: JsonValue) -> Option<HostServerSpec> {
    let host = opt_str(v.spec_get("host"@));
    let port = opt_int(v.spec_get("port"@));
    let ws_port = opt_int(v.spec_get("ws_port"@));
    let wss_port = opt_int(v.spec_get("wss_port"@));
    match (host, port, ws_port, wss_port) {
        (Some(h), Some(p), Some(w), Some(s)) => if 0 <= p <= u32::MAX && 0 <= w <= u32::MAX && 0
            <= s <= u32::MAX {
            Some(
                HostServerSpec {
                    host: h,
                    port: p as u32,
                    ws_port: w as u32,
                    wss_port: s as u32,
                },
            )
        } else {
            None
        },
        _ => None,
    }
}

/// The candidate list an array of directory entries describes, all or
/// nothing: one bad entry spoils the answer.
pub open spec fn hosts_spec(items: Seq<JsonValue>) -> Option<Seq<HostServerSpec>>
    decreases items.len(),
{
    if items.len() == 0 {
        Some(Seq::empty())
    } else {
        match (host_spec(items[0]), hosts_spec(items.drop_first())) {
            (Some(h), Some(rest)) => Some(seq![h] + rest),
            _ => None,
        }
    }
}

/// The session a directory answer describes for `room_id`: the token from
/// `data.token` and the candidate servers from `data.host_list`, with no
/// candidate chosen yet. A missing or ill-typed field malforms the whole
/// answer: a session is never partially populated.
pub open spec fn session_spec(room_id: u32, v: JsonValue) -> Result<SessionSpec, DirectoryError> {
    let token = opt_str(opt_get(v.spec_get("data"@), "token"@));
    let list = opt_get(v.spec_get("data"@), "host_list"@);
    match (token, list) {
        (Some(t), Some(JsonValue::Arr(items))) => match hosts_spec(items@) {
            Some(hs) => Ok(
                SessionSpec { room_id, token: t, host_list: hs, host_index: None::<usize> },
            ),
            None => Err(DirectoryError::MalformedResponse),
        },
        _ => Err(DirectoryError::MalformedResponse),
    }
}

/// Reads one candidate server from a directory entry, as [`host_spec`]
/// describes it.
fn host_from_json(v: &JsonValue) -> (r: Option<HostServer>)
    ensures
        match r {
            Some(h) => host_spec(*v) == Some(h@),
            None => host_spec(*v) is None,
        },
{
    let host = match v.get("host") {
        Some(h) => h.as_str(),
        None => None,
    };
    let port = match v.get("port") {
        Some(p) => p.as_int(),
        None => None,
    };
    let ws_port = match v.get("ws_port") {
        Some(p) => p.as_int(),
        None => None,
    };
    let wss_port = match v.get("wss_port") {
        Some(p) => p.as_int(),
        None => None,
    };
    match (host, port, ws_port, wss_port) {
        (Some(h), Some(p), Some(w), Some(s)) => {
            if 0 <= p && p <= u32::MAX as i64 && 0 <= w && w <= u32::MAX as i64 && 0 <= s && s
                <= u32::MAX as i64 {
                Some(
                    HostServer {
                        host: h.clone(),
                        port: p as u32,
                        ws_port: w as u32,
                        wss_port: s as u32,
                    },
                )
            } else {
                None
            }
        },
        _ => None,
    }
}

/// Holds while the candidate loop runs: the whole list parses exactly when
/// the rest parses, and then to the candidates already built followed by
/// the rest.
spec fn hosts_continue(items: Seq<JsonValue>, i: int, done: Seq<HostServerSpec>) -> bool {
    hosts_spec(items) == (match hosts_spec(items.skip(i)) {
        Some(rest) => Some(done + rest),
        None => None::<Seq<HostServerSpec>>,
    })
}

/// Builds a [`Session`] from the directory's decoded JSON answer, as
/// [`session_spec`] describes: all fields or `MalformedResponse`.
pub fn session_from_json(room_id: u32, v: &JsonValue) -> (r: Result<Session, DirectoryError>)
    ensures
        match r {
            Ok(s) => session_spec(room_id, *v) == Ok::<SessionSpec, DirectoryError>(s@),
            Err(e) => session_spec(room_id, *v) == Err::<SessionSpec, DirectoryError>(e),
        },
{
    let data = v.get("data");
    let token = match data {
        Some(d) => d.get("token"),
        None => None,
    };
    let token = match token {
        Some(t) => t.as_str(),
        None => None,
    };
    let token = match token {
        Some(t) => t,
        None => {
            return Err(DirectoryError::MalformedResponse);
        },
    };
    let list = match data {
        Some(d) => d.get("host_list"),
        None => None,
    };
    let items = match list {
        Some(l) => match l {
            JsonValue::Arr(items) => {
                assert(*l == JsonValue::Arr(*items));
                items
            },
            _ => {
                assert(!(*l matches JsonValue::Arr(_)));
                assert(session_spec(room_id, *v) == Err::<SessionSpec, DirectoryError>(
                    DirectoryError::MalformedResponse,
                ));
                return Err(DirectoryError::MalformedResponse);
            },
        },
        None => {
            return Err(DirectoryError::MalformedResponse);
        },
    };
    let n = items.len();
    let mut hosts: Vec<HostServer> = Vec::new();
    let mut i: usize = 0;
    assert(items@.skip(0) =~= items@);
    assert(hosts.deep_view() =~= Seq::<HostServerSpec>::empty());
    proof {
        if let Some(rest) = hosts_spec(items@) {
            assert(Seq::<HostServerSpec>::empty() + rest =~= rest);
        }
    }
    while i < n
        invariant
            0 <= i <= n,
            n == items@.len(),
            opt_str(opt_get(v.spec_get("data"@), "token"@)) == Some(token@),
            opt_get(v.spec_get("data"@), "host_list"@) == Some(JsonValue::Arr(*items)),
            hosts_continue(items@, i as int, hosts.deep_view()),
        decreases n - i,
    {
        let ghost old_hosts = hosts.deep_view();
        let ghost remaining = items@.skip(i as int);
        assert(remaining[0] == items@[i as int]);
        match host_from_json(&items[i]) {
            Some(h) => {
                let ghost hv = h@;
                hosts.push(h);
                assert(hosts.deep_view() =~= old_hosts + seq![hv]);
                assert(remaining.skip(1) =~= items@.skip(i as int + 1));
                assert(remaining.drop_first() =~= items@.skip(i as int + 1));
                proof {
                    if let Some(rest) = hosts_spec(items@.skip(i as int + 1)) {
                        assert((old_hosts + seq![hv]) + rest =~= old_hosts + (seq![hv] + rest));
                    }
                }
            },
            None => {
                assert(hosts_spec(remaining) is None);
                return Err(DirectoryError::MalformedResponse);
            },
        }
        i = i + 1;
    }
    assert(items@.skip(n as int) =~= Seq::<JsonValue>::empty());
    assert(hosts.deep_view() + Seq::<HostServerSpec>::empty() =~= hosts.deep_view());
    let s = Session { room_id, token: token.clone(), host_list: hosts, host_index: None };
    Ok(s)
}

/// The life of one session. Transitions only move forward; `Closed` is
/// terminal and reachable from anywhere.
#[derive(Debug, Clone, Copy, PartialEq, Eq, Structural)]
pub enum ConnectionState {
    Idle,
    Resolving,
    Connecting,
    Authenticated,
    Closed,
}

/// What can happen to a session: the connect sequence advancing, a fatal
/// transport failure, or a cooperative shutdown.
#[derive(Debug, Clone, Copy, PartialEq, Eq, Structural)]
pub enum SessionEvent {
    BeginResolve,
    DirectoryResolved,
    TransportConnected,
    FatalError,
    Shutdown,
}

impl Default for ConnectionState {
    /// A session starts idle.
    fn default() -> (s: Self)
        ensures
            s == ConnectionState::Idle,
    {
        ConnectionState::Idle
    }
}

/// How far along its life a state is.
pub open spec fn state_rank(s: ConnectionState) -> int {
    match s {
        ConnectionState::Idle => 0,
        ConnectionState::Resolving => 1,
        ConnectionState::Connecting => 2,
        ConnectionState::Authenticated => 3,
        ConnectionState::Closed => 4,
    }
}

/// The transition table: the connect sequence advances one step at a time,
/// a fatal error or shutdown closes from anywhere, and an event that does
/// not apply leaves the state alone.
pub open spec fn spec_step_connection(s: ConnectionState, e: SessionEvent) -> ConnectionState {
    match e {
        SessionEvent::FatalError => ConnectionState::Closed,
        SessionEvent::Shutdown => ConnectionState::Closed,
        SessionEvent::BeginResolve => if s == ConnectionState::Idle {
            ConnectionState::Resolving
        } else {
            s
        },
        SessionEvent::DirectoryResolved => if s == ConnectionState::Resolving {
            ConnectionState::Connecting
        } else {
            s
        },
        SessionEvent::TransportConnected => if s == ConnectionState::Connecting {
            ConnectionState::Authenticated
        } else {
            s
        },
    }
}

/// Applies one event to the connection state. The state never moves
/// backwards, and `Closed` stays `Closed` whatever arrives.
pub fn step_connection(s: ConnectionState, e: SessionEvent) -> (s2: ConnectionState)
    ensures
        s2 == spec_step_connection(s, e),
        state_rank(s2) >= state_rank(s),
        s == ConnectionState::Closed ==> s2 == ConnectionState::Closed,
{
    match e {
        SessionEvent::FatalError => ConnectionState::Closed,
        SessionEvent::Shutdown => ConnectionState::Closed,
        SessionEvent::BeginResolve => if s == ConnectionState::Idle {
            ConnectionState::Resolving
        } else {
            s
        },
        SessionEvent::DirectoryResolved => if s == ConnectionState::Resolving {
            ConnectionState::Connecting
        } else {
            s
        },
        SessionEvent::TransportConnected => if s == ConnectionState::Connecting {
            ConnectionState::Authenticated
        } else {
            s
        },
    }
}

/// The failover walk over a session's candidate servers: candidates are
/// attempted strictly in list order, the first success binds the
/// connection, and only when every candidate has failed is the walk over.
/// The caller performs each attempt and reports its outcome back.
#[derive(Debug, Clone, Copy, PartialEq, Eq, Structural)]
pub struct Failover {
    /// How many candidates the list holds.
    pub total: usize,
    /// The next candidate to attempt.
    pub next: usize,
    /// The candidate the connection got bound to, once one succeeded.
    pub chosen: Option<usize>,
}

impl Failover {
    /// A walk is well formed while it never skips past the list and a
    /// choice points at an attempted candidate.
    pub open spec fn wf(self) -> bool {
        &&& self.next <= self.total
        &&& (self.chosen matches Some(i) ==> i < self.next)
    }

    /// A fresh walk over `total` candidates.
    pub fn new(total: usize) -> (f: Failover)
        ensures
            f == (Failover { total, next: 0, chosen: None::<usize> }),
            f.wf(),
    {
        Failover { total, next: 0, chosen: None }
    }

    /// The candidate to attempt now: the next untried one in order, or
    /// `None` when a candidate already succeeded or the list is exhausted.
    pub fn next_attempt(&self) -> (r: Option<usize>)
        ensures
            r == (if self.chosen is None && self.next < self.total {
                Some(self.next)
            } else {
                None::<usize>
            }),
    {
        if self.chosen.is_none() && self.next < self.total {
            Some(self.next)
        } else {
            None
        }
    }

    /// Records the outcome of attempting the current candidate: a success
    /// binds the walk to it, a failure moves on to the next.
    pub fn record(&mut self, success: bool)
        requires
            old(self).wf(),
            old(self).chosen is None,
            old(self).next < old(self).total,
        ensures
            *final(self) == spec_record(*old(self), success),
            final(self).wf(),
    {
        if success {
            self.chosen = Some(self.next);
        }
        self.next = self.next + 1;
    }

    /// The result of a finished walk: the candidate the connection got
    /// bound to, or `AllCandidatesFailed` — which, as the walk only ends
    /// unbound once `next` has reached `total`, is reported exactly when
    /// every candidate in the list has been attempted and failed.
    pub fn outcome(&self) -> (r: Result<usize, TransportError>)
        requires
            self.chosen is Some || self.next == self.total,
        ensures
            r == (match self.chosen {
                Some(i) => Ok::<usize, TransportError>(i),
                None => Err::<usize, TransportError>(TransportError::AllCandidatesFailed),
            }),
    {
        match self.chosen {
            Some(i) => Ok(i),
            None => Err(TransportError::AllCandidatesFailed),
        }
    }
}

/// One step of the failover walk.
pub open spec fn spec_record(f: Failover, success: bool) -> Failover
    recommends
        f.next < f.total,
{
    Failover {
        total: f.total,
        next: (f.next + 1) as usize,
        chosen: if success {
            Some(f.next)
        } else {
            f.chosen
        },
    }
}

/// The whole failover walk, fed one outcome per attempted candidate: it
/// runs while no candidate has succeeded and candidates are left.
pub open spec fn spec_run_failover(f: Failover, outcomes: Seq<bool>) -> Failover
    decreases outcomes.len(),
{
    if outcomes.len() == 0 || !(f.chosen is None) || f.next >= f.total {
        f
    } else {
        spec_run_failover(spec_record(f, outcomes[0]), outcomes.drop_first())
    }
}

/// The position of the first successful outcome, if any.
pub open spec fn first_success(outcomes: Seq<bool>) -> Option<int>
    decreases outcomes.len(),
{
    if outcomes.len() == 0 {
        None
    } else if outcomes[0] {
        Some(0)
    } else {
        match first_success(outcomes.drop_first()) {
            Some(i) => Some(i + 1),
            None => None,
        }
    }
}

proof fn lemma_failover_run(f: Failover, outcomes: Seq<bool>)
    requires
        f.wf(),
        f.chosen is None,
        outcomes.len() == f.total - f.next,
    ensures
        ({
            let end = spec_run_failover(f, outcomes);
            &&& end.total == f.total
            &&& end.chosen == (match first_success(outcomes) {
                Some(i) => Some((f.next + i) as usize),
                None => None::<usize>,
            })
            &&& (first_success(outcomes) is None ==> end.next == f.total)
        }),
    decreases outcomes.len(),
{
    if outcomes.len() == 0 {
    } else if outcomes[0] {
        let f2 = spec_record(f, true);
        assert(spec_run_failover(f2, outcomes.drop_first()) == f2);
    } else {
        lemma_failover_run(spec_record(f, false), outcomes.drop_first());
    }
}

/// Failover order: over any candidate list with any pattern of per-attempt
/// outcomes, the walk that attempts candidates in order and stops at the
/// first success ends bound to exactly the first candidate that succeeds;
/// when every candidate fails it ends bound to none, with the whole list
/// attempted — the caller then reports that all candidates failed.
pub proof fn lemma_failover_order(outcomes: Seq<bool>)
    requires
        outcomes.len() <= usize::MAX,
    ensures
        ({
            let end = spec_run_failover(
                Failover { total: outcomes.len() as usize, next: 0, chosen: None::<usize> },
                outcomes,
            );
            &&& end.chosen == (match first_success(outcomes) {
                Some(i) => Some(i as usize),
                None => None::<usize>,
            })
            &&& (first_success(outcomes) is None ==> end.next == outcomes.len())
        }),
{
    let f = Failover { total: outcomes.len() as usize, next: 0, chosen: None::<usize> };
    lemma_failover_run(f, outcomes);
}

/// How the handshake decides that the session is usable. The optimistic
/// policy declares it usable as soon as the authentication packet is sent,
/// matching the observed server behavior; the strict one waits until the
/// server's acknowledgement frame has been seen. This client runs the
/// optimistic policy.
#[derive(Debug, Clone, Copy, PartialEq, Eq, Structural)]
pub enum HandshakePolicy {
    FireAndForget,
    RequireAck,
}

/// Whether the handshake counts as complete under a policy, given what has
/// happened so far: the authentication packet sent, and the server's
/// acknowledgement seen.
pub fn handshake_complete(policy: HandshakePolicy, auth_sent: bool, ack_seen: bool) -> (r: bool)
    ensures
        r == (match policy {
            HandshakePolicy::FireAndForget => auth_sent,
            HandshakePolicy::RequireAck => auth_sent && ack_seen,
        }),
{
    match policy {
        HandshakePolicy::FireAndForget => auth_sent,
        HandshakePolicy::RequireAck => auth_sent && ack_seen,
    }
}

/// The authentication body sent right after the transport connects: the
/// fields serialized into the first packet's JSON payload.
#[derive(Debug)]
pub struct AuthPack {
    pub uid: u32,
    pub room_id: u32,
    pub proto_ver: u8,
    pub platform: String,
    pub pack_type: u32,
    pub key: String,
}

impl AuthPack {
    /// An authentication body. A `proto_ver` of 2 asks the server for
    /// zlib-compressed event batches; `key` is the session token.
    pub fn new(uid: u32, room_id: u32, proto_ver: u8, platform: String, pack_type: u32, key: String) -> (a:
        AuthPack)
        ensures
            a.uid == uid,
            a.room_id == room_id,
            a.proto_ver == proto_ver,
            a.platform == platform,
            a.pack_type == pack_type,
            a.key == key,
    {
        AuthPack { uid, room_id, proto_ver, platform, pack_type, key }
    }

    /// The authentication body this client sends for a room: anonymous
    /// (uid 0), protocol version 2 so event batches arrive
    /// zlib-compressed, platform "web", type 2, and the session token as
    /// the key.
    pub fn for_room(room_id: u32, token: String) -> (a: AuthPack)
        ensures
            a.uid == 0,
            a.room_id == room_id,
            a.proto_ver == 2,
            a.platform@ == "web"@,
            a.pack_type == 2,
            a.key == token,
    {
        AuthPack::new(0, room_id, 2, "web".to_owned(), 2, token)
    }
}

/// An empty acknowledgement body for the authentication packet.
#[derive(Debug)]
pub struct AuthRespPack {}

/// The fixed zero-body heartbeat packet, sent on a steady cadence while the
/// session lives: a bare 16-byte header of the heartbeat kind with total
/// length 16 and sequence 1.
pub fn heartbeat_packet() -> (p: Vec<u8>)
    ensures
        p@ == header_bytes(DataPack::HeartBeat, 16, 1),
{
    let body: Vec<u8> = Vec::new();
    let p = crate::codec::frame_packet(DataPack::HeartBeat, body.as_slice(), 1);
    assert(p@ =~= header_bytes(DataPack::HeartBeat, 16, 1));
    p
}

/// The complete authentication packet for a serialized body: an
/// authentication header with sequence 1, its total length covering the
/// body, followed by the body itself.
pub fn auth_packet(body: &[u8]) -> (p: Vec<u8>)
    requires
        body@.len() + 16 <= u32::MAX,
    ensures
        p@ == header_bytes(DataPack::Auth, (body@.len() + 16) as u32, 1) + body@,
{
    crate::codec::frame_packet(DataPack::Auth, body, 1)
}

/// Seconds between heartbeats.
pub const HEARTBEAT_INTERVAL_SECS: u64 = 30;

/// Handling one inbound frame failed. A frame fault means the decompressed
/// stream is corrupt and the connection must be dropped; a decompression
/// fault spoils only the one frame.
#[derive(Debug, Clone, Copy, PartialEq, Eq, Structural)]
pub enum ReceiveError {
    Frame(FrameError),
    Decompress,
}

/// The events a sequence of packet bodies yields, in body order: each body
/// is decoded as JSON and dispatched; a body that is not JSON, carries no
/// recognized tag, or is a recognized tag with fields missing contributes
/// nothing, and never disturbs its neighbours.
pub open spec fn events_of_bodies(bodies: Seq<Seq<u8>>) -> Seq<MessageSpec>
    decreases bodies.len(),
{
    if bodies.len() == 0 {
        Seq::empty()
    } else {
        let head = match json_parse(bodies[0]) {
            Some(v) => match dispatch_spec(v) {
                Ok(Some(m)) => seq![m],
                _ => Seq::empty(),
            },
            None => Seq::empty(),
        };
        head + events_of_bodies(bodies.drop_first())
    }
}

/// Holds while the dispatch loop runs: the events of all bodies are those
/// already collected followed by the events of the bodies left.
spec fn events_continue(bodies: Seq<Seq<u8>>, i: int, done: Seq<MessageSpec>) -> bool {
    events_of_bodies(bodies) == done + events_of_bodies(bodies.skip(i))
}

/// Decodes and dispatches every body in order, collecting the events they
/// yield; bodies that yield none are skipped without disturbing the rest.
pub fn dispatch_bodies(packs: &Vec<Vec<u8>>) -> (events: Vec<Message>)
    ensures
        events.deep_view() == events_of_bodies(packs.deep_view()),
{
    let n = packs.len();
    let mut events: Vec<Message> = Vec::new();
    let mut i: usize = 0;
    assert(packs.deep_view().skip(0) =~= packs.deep_view());
    assert(events.deep_view() =~= Seq::<MessageSpec>::empty());
    assert(Seq::<MessageSpec>::empty() + events_of_bodies(packs.deep_view()) =~= events_of_bodies(
        packs.deep_view(),
    ));
    while i < n
        invariant
            0 <= i <= n,
            n == packs@.len(),
            events_continue(packs.deep_view(), i as int, events.deep_view()),
        decreases n - i,
    {
        let ghost dv = packs.deep_view();
        let ghost old_events = events.deep_view();
        assert(dv.len() == n);
        let ghost remaining = dv.skip(i as int);
        assert(remaining[0] == dv[i as int]);
        assert(dv[i as int] == packs@[i as int]@);
        let ghost head = (match json_parse(remaining[0]) {
            Some(v) => match dispatch_spec(v) {
                Ok(Some(m)) => seq![m],
                _ => Seq::<MessageSpec>::empty(),
            },
            None => Seq::<MessageSpec>::empty(),
        });
        match crate::json::parse_json(packs[i].as_slice()) {
            Some(v) => {
                match crate::dispatch::dispatch(&v) {
                    Ok(Some(m)) => {
                        let ghost mv = m@;
                        events.push(m);
                        assert(events.deep_view() =~= old_events + seq![mv]);
                        assert(head =~= seq![mv]);
                    },
                    _ => {
                        assert(head =~= Seq::<MessageSpec>::empty());
                        assert(events.deep_view() =~= old_events + head);
                    },
                }
            },
            None => {
                assert(head =~= Seq::<MessageSpec>::empty());
                assert(events.deep_view() =~= old_events + head);
            },
        }
        assert(remaining.drop_first() =~= dv.skip(i as int + 1));
        assert(old_events + (head + events_of_bodies(dv.skip(i as int + 1))) =~= (old_events + head)
            + events_of_bodies(dv.skip(i as int + 1)));
        i = i + 1;
    }
    assert(packs.deep_view().skip(n as int) =~= Seq::<Seq<u8>>::empty());
    assert(events.deep_view() + Seq::<MessageSpec>::empty() =~= events.deep_view());
    events
}

/// Handles one inbound transport frame, as the receive loop does for every
/// frame that arrives. A frame too short for a header yields no events. A
/// frame whose header carries protocol version 2 has its body inflated,
/// split into sub-packets and dispatched in order; corrupt compression
/// drops the frame, a malformed sub-packet stream is fatal. Any other
/// frame's body is dispatched as a single packet.
pub fn handle_frame(msg: &[u8]) -> (r: Result<Vec<Message>, ReceiveError>)
    ensures
        msg@.len() < 16 ==> (r matches Ok(v) && v@.len() == 0),
        msg@.len() >= 16 && header_of(msg@).protocol_version != 2 ==> (r matches Ok(v)
            && v.deep_view() == events_of_bodies(seq![msg@.skip(16)])),
        msg@.len() >= 16 && header_of(msg@).protocol_version == 2 ==> (match r {
            Ok(v) => inflate_of(msg@.skip(16)) matches Some(dec) && split_spec(dec) matches Ok(
                bodies,
            ) && v.deep_view() == events_of_bodies(bodies),
            Err(ReceiveError::Frame(e)) => inflate_of(msg@.skip(16)) matches Some(dec)
                && split_spec(dec) == Err::<Seq<Seq<u8>>, FrameError>(e),
            Err(ReceiveError::Decompress) => inflate_of(msg@.skip(16)) is None,
        }),
{
    if msg.len() < 16 {
        return Ok(Vec::new());
    }
    let h = crate::codec::decode_header(msg);
    let body = vstd::slice::slice_subrange(msg, 16, msg.len());
    assert(body@ =~= msg@.skip(16));
    if h.protocol_version == 2 {
        match crate::compress::zlib_dec(body) {
            Ok(dec) => {
                match crate::codec::split_packs(dec.as_slice()) {
                    Ok(packs) => Ok(dispatch_bodies(&packs)),
                    Err(e) => Err(ReceiveError::Frame(e)),
                }
            },
            Err(_) => Err(ReceiveError::Decompress),
        }
    } else {
        let mut packs: Vec<Vec<u8>> = Vec::new();
        packs.push(vstd::slice::slice_to_vec(body));
        assert(packs.deep_view() =~~= seq![msg@.skip(16)]);
        Ok(dispatch_bodies(&packs))
    }
}

} // verus!
