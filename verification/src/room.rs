//! A live room and the typed readings of the platform's room-metadata and
//! audience-rank answers. The HTTP calls that fetch those answers live
//! outside the library; what they hand back is decoded here.

use vstd::prelude::*;
use crate::credential::Credential;
use crate::dispatch::{opt_get, opt_int, opt_str};
use crate::json::JsonValue;

verus! {

/// One live room, with the credential used for calls that concern it.
#[derive(Debug)]
pub struct LiveRoom {
    pub room_display_id: i64,
    pub credential: Credential,
}

impl LiveRoom {
    /// A handle on the room with the given display id.
    pub fn new(room_display_id: i64, credential: Credential) -> (r: LiveRoom)
        ensures
            r.room_display_id == room_display_id,
            r.credential == credential,
    {
        LiveRoom { room_display_id, credential }
    }
}

/// One entry of the audience rank: who, at which guard level, with what
/// score.
#[derive(Debug)]
pub struct RankEntry {
    pub name: String,
    pub guard_level: i64,
    pub score: i64,
}

/// The mathematical image of a [`RankEntry`].
pub ghost struct RankEntrySpec {
    pub name: Seq<char>,
    pub guard_level: i64,
    pub score: i64,
}

impl View for RankEntry {
    type V = RankEntrySpec;

    open spec fn view(&self) -> RankEntrySpec {
        RankEntrySpec {
            name: self.name@,
            guard_level: self.guard_level,
            score: self.score,
        }
    }
}

impl DeepView for RankEntry {
    type V = RankEntrySpec;

    open spec fn deep_view(&self) -> RankEntrySpec {
        self.view()
    }
}

/// The rank entry one element of the answer's list describes: a string
/// name and two integers, or nothing.
pub open spec fn rank_entry_spec(v: JsonValue) -> Option<RankEntrySpec> {
    let name = opt_str(v.spec_get("name"@));
    let guard_level = opt_int(v.spec_get("guard_level"@));
    let score = opt_int(v.spec_get("score"@));
    match (name, guard_level, score) {
        (Some(n), Some(g), Some(s)) => Some(RankEntrySpec { name: n, guard_level: g, score: s }),
        _ => None,
    }
}

/// The entries a list of elements yields, in order; a malformed element
/// contributes nothing.
pub open spec fn rank_entries_spec(items: Seq<JsonValue>) -> Seq<RankEntrySpec>
    decreases items.len(),
{
    if items.len() == 0 {
        Seq::empty()
    } else {
        let head = match rank_entry_spec(items[0]) {
            Some(e) => seq![e],
            None => Seq::<RankEntrySpec>::empty(),
        };
        head + rank_entries_spec(items.drop_first())
    }
}

/// The audience rank an answer carries under `data.OnlineRankItem`; empty
/// when that is not an array.
pub open spec fn rank_info_spec(v: JsonValue) -> Seq<RankEntrySpec> {
    match opt_get(v.spec_get("data"@), "OnlineRankItem"@) {
        Some(JsonValue::Arr(items)) => rank_entries_spec(items@),
        _ => Seq::empty(),
    }
}

/// Reads one rank entry, as [`rank_entry_spec`] describes it.
fn rank_entry_from_json(v: &JsonValue) -> (r: Option<RankEntry>)
    ensures
        match r {
            Some(e) => rank_entry_spec(*v) == Some(e@),
            None => rank_entry_spec(*v) is None,
        },
{
    let name = match v.get("name") {
        Some(n) => n.as_str(),
        None => None,
    };
    let guard_level = match v.get("guard_level") {
        Some(g) => g.as_int(),
        None => None,
    };
    let score = match v.get("score") {
        Some(s) => s.as_int(),
        None => None,
    };
    match (name, guard_level, score) {
        (Some(n), Some(g), Some(s)) => Some(
            RankEntry { name: n.clone(), guard_level: g, score: s },
        ),
        _ => None,
    }
}

/// Holds while the rank loop runs.
spec fn rank_continue(items: Seq<JsonValue>, i: int, done: Seq<RankEntrySpec>) -> bool {
    rank_entries_spec(items) == done + rank_entries_spec(items.skip(i))
}

/// Decodes the audience rank from a rank answer, as [`rank_info_spec`]
/// describes: the entries of `data.OnlineRankItem` in order, skipping
/// malformed ones, and nothing when the list is absent.
pub fn rank_info_from_json(v: &JsonValue) -> (r: Vec<RankEntry>)
    ensures
        r.deep_view() == rank_info_spec(*v),
{
    let list = match v.get("data") {
        Some(d) => d.get("OnlineRankItem"),
        None => None,
    };
    let items = match list {
        Some(l) => match l {
            JsonValue::Arr(items) => {
                assert(*l == JsonValue::Arr(*items));
                items
            },
            _ => {
                let r: Vec<RankEntry> = Vec::new();
                assert(r.deep_view() =~= rank_info_spec(*v));
                return r;
            },
        },
        None => {
            let r: Vec<RankEntry> = Vec::new();
            assert(r.deep_view() =~= rank_info_spec(*v));
            return r;
        },
    };
    let n = items.len();
    let mut entries: Vec<RankEntry> = Vec::new();
    let mut i: usize = 0;
    assert(items@.skip(0) =~= items@);
    assert(entries.deep_view() =~= Seq::<RankEntrySpec>::empty());
    assert(Seq::<RankEntrySpec>::empty() + rank_entries_spec(items@) =~= rank_entries_spec(
        items@,
    ));
    while i < n
        invariant
            0 <= i <= n,
            n == items@.len(),
            opt_get(v.spec_get("data"@), "OnlineRankItem"@) == Some(JsonValue::Arr(*items)),
            rank_continue(items@, i as int, entries.deep_view()),
        decreases n - i,
    {
        let ghost old_entries = entries.deep_view();
        let ghost remaining = items@.skip(i as int);
        assert(remaining[0] == items@[i as int]);
        let ghost head = (match rank_entry_spec(remaining[0]) {
            Some(e) => seq![e],
            None => Seq::<RankEntrySpec>::empty(),
        });
        match rank_entry_from_json(&items[i]) {
            Some(e) => {
                let ghost ev = e@;
                entries.push(e);
                assert(entries.deep_view() =~= old_entries + seq![ev]);
                assert(head =~= seq![ev]);
            },
            None => {
                assert(head =~= Seq::<RankEntrySpec>::empty());
                assert(entries.deep_view() =~= old_entries + head);
            },
        }
        assert(remaining.drop_first() =~= items@.skip(i as int + 1));
        assert(old_entries + (head + rank_entries_spec(items@.skip(i as int + 1))) =~= (old_entries
            + head) + rank_entries_spec(items@.skip(i as int + 1)));
        i = i + 1;
    }
    assert(items@.skip(n as int) =~= Seq::<JsonValue>::empty());
    assert(entries.deep_view() + Seq::<RankEntrySpec>::empty() =~= entries.deep_view());
    entries
}

/// The names a list of rank elements carries under `uname`, in order; an
/// element without a string name contributes nothing.
pub open spec fn rank_names_spec(items: Seq<JsonValue>) -> Seq<Seq<char>>
    decreases items.len(),
{
    if items.len() == 0 {
        Seq::empty()
    } else {
        let head = match opt_str(items[0].spec_get("uname"@)) {
            Some(n) => seq![n],
            None => Seq::<Seq<char>>::empty(),
        };
        head + rank_names_spec(items.drop_first())
    }
}

/// Holds while the name loop runs.
spec fn names_continue(items: Seq<JsonValue>, i: int, done: Seq<Seq<char>>) -> bool {
    rank_names_spec(items) == done + rank_names_spec(items.skip(i))
}

/// The names on a room answer's own gold-rank list: for an array, the
/// `uname` of each element in order, skipping elements without one; for
/// anything else, nothing.
pub fn parse_rank_info(list: &JsonValue) -> (r: Option<Vec<String>>)
    ensures
        match r {
            Some(names) => (*list matches JsonValue::Arr(items) && names.deep_view()
                == rank_names_spec(items@)),
            None => !(*list matches JsonValue::Arr(_)),
        },
{
    let items = match list {
        JsonValue::Arr(items) => {
            assert(*list == JsonValue::Arr(*items));
            items
        },
        _ => {
            return None;
        },
    };
    let n = items.len();
    let mut names: Vec<String> = Vec::new();
    let mut i: usize = 0;
    assert(items@.skip(0) =~= items@);
    assert(names.deep_view() =~= Seq::<Seq<char>>::empty());
    assert(Seq::<Seq<char>>::empty() + rank_names_spec(items@) =~= rank_names_spec(items@));
    while i < n
        invariant
            0 <= i <= n,
            n == items@.len(),
            names_continue(items@, i as int, names.deep_view()),
        decreases n - i,
    {
        let ghost old_names = names.deep_view();
        let ghost remaining = items@.skip(i as int);
        assert(remaining[0] == items@[i as int]);
        let ghost head = (match opt_str(remaining[0].spec_get("uname"@)) {
            Some(nm) => seq![nm],
            None => Seq::<Seq<char>>::empty(),
        });
        let uname = match items[i].get("uname") {
            Some(u) => u.as_str(),
            None => None,
        };
        match uname {
            Some(u) => {
                let ghost uv = u@;
                names.push(u.clone());
                assert(names.deep_view() =~~= old_names + seq![uv]);
                assert(head =~= seq![uv]);
            },
            None => {
                assert(head =~= Seq::<Seq<char>>::empty());
                assert(names.deep_view() =~= old_names + head);
            },
        }
        assert(remaining.drop_first() =~= items@.skip(i as int + 1));
        assert(old_names + (head + rank_names_spec(items@.skip(i as int + 1))) =~= (old_names
            + head) + rank_names_spec(items@.skip(i as int + 1)));
        i = i + 1;
    }
    assert(items@.skip(n as int) =~= Seq::<JsonValue>::empty());
    assert(names.deep_view() + Seq::<Seq<char>>::empty() =~= names.deep_view());
    Some(names)
}

/// Everything the room-information answer tells about a room. `rank_info`
/// holds the names on the answer's own gold-rank list, empty when the
/// answer carries none.
#[derive(Debug)]
pub struct RoomInfo {
    pub uname: String,
    pub ruid: i64,
    pub room_id: i64,
    pub title: String,
    pub tags: String,
    pub description: String,
    pub area_name: String,
    pub parent_area_name: String,
    pub live_start_time: i64,
    pub watched_show: i64,
    pub attention: i64,
    pub total_likes: i64,
    pub rank_info: Vec<String>,
}

/// The mathematical image of a [`RoomInfo`].
pub ghost struct RoomInfoSpec {
    pub uname: Seq<char>,
    pub ruid: i64,
    pub room_id: i64,
    pub title: Seq<char>,
    pub tags: Seq<char>,
    pub description: Seq<char>,
    pub area_name: Seq<char>,
    pub parent_area_name: Seq<char>,
    pub live_start_time: i64,
    pub watched_show: i64,
    pub attention: i64,
    pub total_likes: i64,
    pub rank_info: Seq<Seq<char>>,
}

impl View for RoomInfo {
    type V = RoomInfoSpec;

    open spec fn view(&self) -> RoomInfoSpec {
        RoomInfoSpec {
            uname: self.uname@,
            ruid: self.ruid,
            room_id: self.room_id,
            title: self.title@,
            tags: self.tags@,
            description: self.description@,
            area_name: self.area_name@,
            parent_area_name: self.parent_area_name@,
            live_start_time: self.live_start_time,
            watched_show: self.watched_show,
            attention: self.attention,
            total_likes: self.total_likes,
            rank_info: self.rank_info.deep_view(),
        }
    }
}

/// The room information an answer describes: identity and timing from
/// `data.room_info`, the audience figures from `data.watched_show`,
/// `data.anchor_info` and `data.like_info_v3`, and the gold-rank names
/// from `data.online_gold_rank_info_v2.list`. Any required field missing
/// or ill-typed malforms the whole answer; only the rank list is optional.
pub open spec fn room_info_spec(v: JsonValue) -> Option<RoomInfoSpec> {
    let data = v.spec_get("data"@);
    let room = opt_get(data, "room_info"@);
    let ruid = opt_int(opt_get(room, "uid"@));
    let room_id = opt_int(opt_get(room, "room_id"@));
    let title = opt_str(opt_get(room, "title"@));
    let tags = opt_str(opt_get(room, "tags"@));
    let description = opt_str(opt_get(room, "description"@));
    let area_name = opt_str(opt_get(room, "area_name"@));
    let parent_area_name = opt_str(opt_get(room, "parent_area_name"@));
    let live_start_time = opt_int(opt_get(room, "live_start_time"@));
    let watched_show = opt_int(opt_get(opt_get(data, "watched_show"@), "num"@));
    let anchor = opt_get(data, "anchor_info"@);
    let attention = opt_int(opt_get(opt_get(anchor, "relation_info"@), "attention"@));
    let uname = opt_str(opt_get(opt_get(anchor, "base_info"@), "uname"@));
    let total_likes = opt_int(opt_get(opt_get(data, "like_info_v3"@), "total_likes"@));
    let rank = match opt_get(opt_get(data, "online_gold_rank_info_v2"@), "list"@) {
        Some(JsonValue::Arr(items)) => rank_names_spec(items@),
        _ => Seq::<Seq<char>>::empty(),
    };
    if ruid is None || room_id is None || title is None || tags is None || description is None
        || area_name is None || parent_area_name is None || live_start_time is None
        || watched_show is None || attention is None || uname is None || total_likes is None {
        None
    } else {
        Some(
            RoomInfoSpec {
                uname: uname->0,
                ruid: ruid->0,
                room_id: room_id->0,
                title: title->0,
                tags: tags->0,
                description: description->0,
                area_name: area_name->0,
                parent_area_name: parent_area_name->0,
                live_start_time: live_start_time->0,
                watched_show: watched_show->0,
                attention: attention->0,
                total_likes: total_likes->0,
                rank_info: rank,
            },
        )
    }
}

/// Decodes the room-information answer, as [`room_info_spec`] describes:
/// all required fields or nothing.
pub fn room_info_from_json(v: &JsonValue) -> (r: Option<RoomInfo>)
    ensures
        match r {
            Some(info) => room_info_spec(*v) == Some(info@),
            None => room_info_spec(*v) is None,
        },
{
    let data = v.get("data");
    let room = match data {
        Some(d) => d.get("room_info"),
        None => None,
    };
    let ruid = match room {
        Some(x) => x.get("uid"),
        None => None,
    };
    let ruid = match ruid {
        Some(x) => x.as_int(),
        None => None,
    };
    let room_id = match room {
        Some(x) => x.get("room_id"),
        None => None,
    };
    let room_id = match room_id {
        Some(x) => x.as_int(),
        None => None,
    };
    let title = match room {
        Some(x) => x.get("title"),
        None => None,
    };
    let title = match title {
        Some(x) => x.as_str(),
        None => None,
    };
    let tags = match room {
        Some(x) => x.get("tags"),
        None => None,
    };
    let tags = match tags {
        Some(x) => x.as_str(),
        None => None,
    };
    let description = match room {
        Some(x) => x.get("description"),
        None => None,
    };
    let description = match description {
        Some(x) => x.as_str(),
        None => None,
    };
    let area_name = match room {
        Some(x) => x.get("area_name"),
        None => None,
    };
    let area_name = match area_name {
        Some(x) => x.as_str(),
        None => None,
    };
    let parent_area_name = match room {
        Some(x) => x.get("parent_area_name"),
        None => None,
    };
    let parent_area_name = match parent_area_name {
        Some(x) => x.as_str(),
        None => None,
    };
    let live_start_time = match room {
        Some(x) => x.get("live_start_time"),
        None => None,
    };
    let live_start_time = match live_start_time {
        Some(x) => x.as_int(),
        None => None,
    };
    let watched = match data {
        Some(d) => d.get("watched_show"),
        None => None,
    };
    let watched_show = match watched {
        Some(x) => x.get("num"),
        None => None,
    };
    let watched_show = match watched_show {
        Some(x) => x.as_int(),
        None => None,
    };
    let anchor = match data {
        Some(d) => d.get("anchor_info"),
        None => None,
    };
    let relation = match anchor {
        Some(a) => a.get("relation_info"),
        None => None,
    };
    let attention = match relation {
        Some(x) => x.get("attention"),
        None => None,
    };
    let attention = match attention {
        Some(x) => x.as_int(),
        None => None,
    };
    let base = match anchor {
        Some(a) => a.get("base_info"),
        None => None,
    };
    let uname = match base {
        Some(x) => x.get("uname"),
        None => None,
    };
    let uname = match uname {
        Some(x) => x.as_str(),
        None => None,
    };
    let likes = match data {
        Some(d) => d.get("like_info_v3"),
        None => None,
    };
    let total_likes = match likes {
        Some(x) => x.get("total_likes"),
        None => None,
    };
    let total_likes = match total_likes {
        Some(x) => x.as_int(),
        None => None,
    };
    let gold = match data {
        Some(d) => d.get("online_gold_rank_info_v2"),
        None => None,
    };
    let gold_list = match gold {
        Some(g) => g.get("list"),
        None => None,
    };
    let rank_info: Vec<String> = match gold_list {
        Some(l) => match parse_rank_info(l) {
            Some(names) => names,
            None => Vec::new(),
        },
        None => Vec::new(),
    };
    proof {
        let spec_rank = (match opt_get(
            opt_get(v.spec_get("data"@), "online_gold_rank_info_v2"@),
            "list"@,
        ) {
            Some(JsonValue::Arr(items)) => rank_names_spec(items@),
            _ => Seq::<Seq<char>>::empty(),
        });
        assert(rank_info.deep_view() =~~= spec_rank);
    }
    match (ruid, room_id, live_start_time, watched_show, attention, total_likes) {
        (Some(ruid), Some(room_id), Some(live_start_time), Some(watched_show), Some(attention), Some(total_likes)) => {
            match (title, tags, description, area_name, parent_area_name, uname) {
                (Some(title), Some(tags), Some(description), Some(area_name), Some(parent_area_name), Some(uname)) => {
                    Some(
                        RoomInfo {
                            uname: uname.clone(),
                            ruid,
                            room_id,
                            title: title.clone(),
                            tags: tags.clone(),
                            description: description.clone(),
                            area_name: area_name.clone(),
                            parent_area_name: parent_area_name.clone(),
                            live_start_time,
                            watched_show,
                            attention,
                            total_likes,
                            rank_info,
                        },
                    )
                },
                _ => None,
            }
        },
        _ => None,
    }
}

} // verus!
