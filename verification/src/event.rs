//! The typed model of one webhook delivery's events, and the mapping from
//! parsed JSON onto it. Every constructor returns `Some` exactly when the
//! JSON value fits the schema, and the `*_rel` spec functions pin down every
//! field of the result. Unknown object members are ignored, so additions to
//! the platform's schema do not break parsing.
//!
//! Numeric fields (timestamps, durations, sizes, coordinates) keep their
//! decimal literal text: the pipeline never computes with them.

use vstd::prelude::*;
use crate::json::{Json, JsonV, jview, jv_get};

verus! {

/// Who an event came from.
#[derive(Debug)]
pub enum Source {
    User { user_id: String },
    Group { group_id: String, user_id: Option<String> },
    Room { room_id: String, user_id: Option<String> },
}

/// Where the content of a media message is hosted.
#[derive(Debug)]
pub enum ContentProvider {
    Line,
    External { original_content_url: String, preview_image_url: Option<String> },
}

/// The message payload of a message event.
#[derive(Debug)]
pub enum WebhookMessage {
    Text { id: String, text: String },
    Image { id: String, content_provider: ContentProvider },
    Video { id: String, duration: String, content_provider: ContentProvider },
    Audio { id: String, duration: String, content_provider: ContentProvider },
    File { id: String, file_name: String, file_size: String },
    Location { id: String, title: String, address: String, latitude: String, longitude: String },
    Sticker { id: String, package_id: String, sticker_id: String },
}

/// The members who joined a group or room.
#[derive(Debug)]
pub struct Joined {
    pub members: Vec<Source>,
}

/// The members who left a group or room.
#[derive(Debug)]
pub struct Left {
    pub members: Vec<Source>,
}

/// A postback action's payload.
#[derive(Debug)]
pub struct Postback {
    pub data: String,
    pub params: Params,
}

/// The date-or-time parameter of a postback action.
#[derive(Debug)]
pub enum Params {
    Date(String),
    Time(String),
    Datetime(String),
}

/// A beacon event's payload.
#[derive(Debug)]
pub enum Beacon {
    Enter { property: BeaconCommonProperty },
    Leave { property: BeaconCommonProperty },
    Banner { property: BeaconCommonProperty },
}

#[derive(Debug)]
pub struct BeaconCommonProperty {
    pub hwid: String,
    pub dm: Option<String>,
}

/// An account-link event's payload.
#[derive(Debug)]
pub struct Link {
    pub result: LinkResult,
    pub nonce: String,
}

#[derive(Debug)]
pub enum LinkResult {
    Success,
    Failed,
}

/// A device-link event's payload.
#[derive(Debug)]
pub enum Things {
    Link { device_id: String },
    Unlink { device_id: String },
}

/// What every event carries: an optional reply token, a timestamp (kept as
/// its decimal literal), and the sender.
#[derive(Debug)]
pub struct EventCommonProperty {
    pub reply_token: Option<String>,
    pub timestamp: String,
    pub source: Source,
}

/// One webhook event, tagged by kind.
#[derive(Debug)]
pub enum WebhookEvent {
    Message { property: EventCommonProperty, message: WebhookMessage },
    Follow { property: EventCommonProperty },
    Unfollow { property: EventCommonProperty },
    Join { property: EventCommonProperty },
    Leave { property: EventCommonProperty },
    MemberJoined { property: EventCommonProperty, joined: Joined },
    MemberLeft { property: EventCommonProperty, left: Left },
    Postback { property: EventCommonProperty, postback: Postback },
    Beacon { property: EventCommonProperty, beacon: Beacon },
    AccountLink { property: EventCommonProperty, link: Link },
    Things { property: EventCommonProperty, things: Things },
}

// ---------------------------------------------------------------------------
// Field access over the JSON model
// ---------------------------------------------------------------------------

/// The value of `key` in `v`, if `v` is an object with such a member.
pub open spec fn jv_field(v: JsonV, key: Seq<char>) -> Option<JsonV> {
    match v {
        JsonV::Obj(ms) => jv_get(ms, key),
        _ => None,
    }
}

/// Whether `v` has a string member `key`.
pub open spec fn str_field_ok(v: JsonV, key: Seq<char>) -> bool {
    jv_field(v, key) matches Some(JsonV::Str(_))
}

/// Whether `v` has a number member `key`.
pub open spec fn num_field_ok(v: JsonV, key: Seq<char>) -> bool {
    jv_field(v, key) matches Some(JsonV::Num(_))
}

/// An optional string member: it may be absent or null (no value), or a
/// string; any other shape is a type error.
pub open spec fn opt_str_ok(o: Option<JsonV>) -> bool {
    match o {
        None => true,
        Some(j) => j is Null || j is Str,
    }
}

pub open spec fn opt_str_of(o: Option<JsonV>) -> Option<Seq<char>> {
    match o {
        Some(JsonV::Str(t)) => Some(t),
        _ => None,
    }
}

/// How an executable optional string relates to an optional JSON member.
pub open spec fn opt_str_rel(o: Option<JsonV>, r: Option<String>) -> bool {
    &&& opt_str_ok(o)
    &&& match r {
        Some(u) => opt_str_of(o) == Some(u@),
        None => opt_str_of(o) is None,
    }
}

/// Looks a member up in a JSON object; `None` when `v` is not an object or
/// has no member named `key`.
pub fn obj_get<'a>(v: &'a Json, key: &str) -> (r: Option<&'a Json>)
    ensures
        r matches Some(x) ==> jv_field(jview(*v), key@) == Some(jview(*x)),
        r is None ==> jv_field(jview(*v), key@) is None,
{
    match v {
        Json::Obj(ms) => {
            let ghost mv = crate::json::jview_members(ms@);
            proof {
                assert(*v == Json::Obj(*ms));
                crate::json::lemma_jview_obj(*ms);
                assert(jview(*v) == JsonV::Obj(mv));
                assert(jv_get(mv, key@) == jv_get(mv.skip(0), key@)) by {
                    assert(mv.skip(0) =~= mv);
                }
            }
            let n = ms.len();
            let mut i: usize = 0;
            while i < n
                invariant
                    0 <= i <= n,
                    n == ms@.len(),
                    mv == crate::json::jview_members(ms@),
                    mv.len() == n,
                    jview(*v) == JsonV::Obj(mv),
                    jv_get(mv, key@) == jv_get(mv.skip(i as int), key@),
                decreases n - i,
            {
                proof {
                    assert(mv.skip(i as int)[0] == mv[i as int]);
                    assert(mv.skip(i as int).drop_first() =~= mv.skip(i + 1));
                }
                if crate::json::str_eq(ms[i].0.as_str(), key) {
                    proof {
                        assert(mv[i as int] == (ms@[i as int].0@, jview(ms@[i as int].1)));
                        assert(mv.skip(i as int)[0].0 == key@);
                        assert(jv_get(mv.skip(i as int), key@) == Some(mv[i as int].1));
                        assert(jview(*v) == JsonV::Obj(mv));
                    }
                    return Some(&ms[i].1);
                }
                i = i + 1;
            }
            proof {
                assert(mv.skip(n as int) =~= Seq::<(Seq<char>, JsonV)>::empty());
            }
            None
        },
        _ => None,
    }
}

/// Extracts a required string member.
pub fn get_str_field(v: &Json, key: &str) -> (r: Option<String>)
    ensures
        r matches Some(t) ==> jv_field(jview(*v), key@) == Some(JsonV::Str(t@)),
        r is Some <==> str_field_ok(jview(*v), key@),
{
    match obj_get(v, key) {
        Some(j) => match j {
            Json::Str(t) => Some(t.clone()),
            _ => None,
        },
        None => None,
    }
}

/// Extracts a required number member, as its literal text.
pub fn get_num_field(v: &Json, key: &str) -> (r: Option<String>)
    ensures
        r matches Some(t) ==> jv_field(jview(*v), key@) == Some(JsonV::Num(t@)),
        r is Some <==> num_field_ok(jview(*v), key@),
{
    match obj_get(v, key) {
        Some(j) => match j {
            Json::Num(t) => Some(t.clone()),
            _ => None,
        },
        None => None,
    }
}

/// Extracts an optional string member; the outer `None` is a type error
/// (a member of another shape than string or null).
pub fn get_opt_str_field(v: &Json, key: &str) -> (r: Option<Option<String>>)
    ensures
        r matches Some(o) ==> opt_str_rel(jv_field(jview(*v), key@), o),
        r is Some <==> opt_str_ok(jv_field(jview(*v), key@)),
{
    match obj_get(v, key) {
        Some(j) => match j {
            Json::Str(t) => Some(Some(t.clone())),
            Json::Null => Some(None),
            _ => None,
        },
        None => Some(None),
    }
}

// ---------------------------------------------------------------------------
// Sources
// ---------------------------------------------------------------------------

/// Whether `v` is a well-formed source object.
pub open spec fn source_ok(v: JsonV) -> bool {
    match jv_field(v, "type"@) {
        Some(JsonV::Str(t)) => if t == "user"@ {
            str_field_ok(v, "userId"@)
        } else if t == "group"@ {
            str_field_ok(v, "groupId"@) && opt_str_ok(jv_field(v, "userId"@))
        } else if t == "room"@ {
            str_field_ok(v, "roomId"@) && opt_str_ok(jv_field(v, "userId"@))
        } else {
            false
        },
        _ => false,
    }
}

/// How a parsed [`Source`] relates to the source object it came from.
pub open spec fn source_rel(v: JsonV, s: Source) -> bool {
    match s {
        Source::User { user_id } => {
            &&& jv_field(v, "type"@) == Some(JsonV::Str("user"@))
            &&& jv_field(v, "userId"@) == Some(JsonV::Str(user_id@))
        },
        Source::Group { group_id, user_id } => {
            &&& jv_field(v, "type"@) == Some(JsonV::Str("group"@))
            &&& jv_field(v, "groupId"@) == Some(JsonV::Str(group_id@))
            &&& opt_str_rel(jv_field(v, "userId"@), user_id)
        },
        Source::Room { room_id, user_id } => {
            &&& jv_field(v, "type"@) == Some(JsonV::Str("room"@))
            &&& jv_field(v, "roomId"@) == Some(JsonV::Str(room_id@))
            &&& opt_str_rel(jv_field(v, "userId"@), user_id)
        },
    }
}

/// Reads a source object.
pub fn source_from(v: &Json) -> (r: Option<Source>)
    ensures
        r is Some <==> source_ok(jview(*v)),
        r matches Some(s) ==> source_rel(jview(*v), s),
{
    let ty = match get_str_field(v, "type") {
        Some(t) => t,
        None => {
            return None;
        },
    };
    if crate::json::str_eq(ty.as_str(), "user") {
        match get_str_field(v, "userId") {
            Some(uid) => Some(Source::User { user_id: uid }),
            None => None,
        }
    } else if crate::json::str_eq(ty.as_str(), "group") {
        let gid = match get_str_field(v, "groupId") {
            Some(g) => g,
            None => {
                return None;
            },
        };
        match get_opt_str_field(v, "userId") {
            Some(u) => Some(Source::Group { group_id: gid, user_id: u }),
            None => None,
        }
    } else if crate::json::str_eq(ty.as_str(), "room") {
        let rid = match get_str_field(v, "roomId") {
            Some(g) => g,
            None => {
                return None;
            },
        };
        match get_opt_str_field(v, "userId") {
            Some(u) => Some(Source::Room { room_id: rid, user_id: u }),
            None => None,
        }
    } else {
        None
    }
}

// ---------------------------------------------------------------------------
// Content providers, postback parameters, beacons, links, devices
// ---------------------------------------------------------------------------

pub open spec fn content_provider_ok(v: JsonV) -> bool {
    match jv_field(v, "type"@) {
        Some(JsonV::Str(t)) => if t == "line"@ {
            true
        } else if t == "external"@ {
            str_field_ok(v, "originalContentUrl"@) && opt_str_ok(jv_field(v, "previewImageUrl"@))
        } else {
            false
        },
        _ => false,
    }
}

pub open spec fn content_provider_rel(v: JsonV, cp: ContentProvider) -> bool {
    match cp {
        ContentProvider::Line => jv_field(v, "type"@) == Some(JsonV::Str("line"@)),
        ContentProvider::External { original_content_url, preview_image_url } => {
            &&& jv_field(v, "type"@) == Some(JsonV::Str("external"@))
            &&& jv_field(v, "originalContentUrl"@) == Some(JsonV::Str(original_content_url@))
            &&& opt_str_rel(jv_field(v, "previewImageUrl"@), preview_image_url)
        },
    }
}

pub fn content_provider_from(v: &Json) -> (r: Option<ContentProvider>)
    ensures
        r is Some <==> content_provider_ok(jview(*v)),
        r matches Some(cp) ==> content_provider_rel(jview(*v), cp),
{
    let ty = match get_str_field(v, "type") {
        Some(t) => t,
        None => {
            return None;
        },
    };
    if crate::json::str_eq(ty.as_str(), "line") {
        Some(ContentProvider::Line)
    } else if crate::json::str_eq(ty.as_str(), "external") {
        let ocu = match get_str_field(v, "originalContentUrl") {
            Some(u) => u,
            None => {
                return None;
            },
        };
        match get_opt_str_field(v, "previewImageUrl") {
            Some(p) => Some(
                ContentProvider::External { original_content_url: ocu, preview_image_url: p },
            ),
            None => None,
        }
    } else {
        None
    }
}

/// A postback parameter object holds one of `date`, `time` or `datetime`,
/// read in that order of preference.
pub open spec fn params_ok(v: JsonV) -> bool {
    ||| jv_field(v, "date"@) matches Some(JsonV::Str(_))
    ||| jv_field(v, "time"@) matches Some(JsonV::Str(_))
    ||| jv_field(v, "datetime"@) matches Some(JsonV::Str(_))
}

pub open spec fn params_rel(v: JsonV, p: Params) -> bool {
    match p {
        Params::Date(d) => jv_field(v, "date"@) == Some(JsonV::Str(d@)),
        Params::Time(t) => {
            &&& !(jv_field(v, "date"@) matches Some(JsonV::Str(_)))
            &&& jv_field(v, "time"@) == Some(JsonV::Str(t@))
        },
        Params::Datetime(x) => {
            &&& !(jv_field(v, "date"@) matches Some(JsonV::Str(_)))
            &&& !(jv_field(v, "time"@) matches Some(JsonV::Str(_)))
            &&& jv_field(v, "datetime"@) == Some(JsonV::Str(x@))
        },
    }
}

pub fn params_from(v: &Json) -> (r: Option<Params>)
    ensures
        r is Some <==> params_ok(jview(*v)),
        r matches Some(p) ==> params_rel(jview(*v), p),
{
    if let Some(d) = get_str_field(v, "date") {
        return Some(Params::Date(d));
    }
    if let Some(t) = get_str_field(v, "time") {
        return Some(Params::Time(t));
    }
    if let Some(x) = get_str_field(v, "datetime") {
        return Some(Params::Datetime(x));
    }
    None
}

pub open spec fn postback_ok(v: JsonV) -> bool {
    &&& str_field_ok(v, "data"@)
    &&& jv_field(v, "params"@) matches Some(q) && params_ok(q)
}

pub open spec fn postback_rel(v: JsonV, p: Postback) -> bool {
    &&& jv_field(v, "data"@) == Some(JsonV::Str(p.data@))
    &&& jv_field(v, "params"@) matches Some(q) && params_rel(q, p.params)
}

pub fn postback_from(v: &Json) -> (r: Option<Postback>)
    ensures
        r is Some <==> postback_ok(jview(*v)),
        r matches Some(p) ==> postback_rel(jview(*v), p),
{
    let data = match get_str_field(v, "data") {
        Some(d) => d,
        None => {
            return None;
        },
    };
    let q = match obj_get(v, "params") {
        Some(q) => q,
        None => {
            return None;
        },
    };
    match params_from(q) {
        Some(p) => Some(Postback { data, params: p }),
        None => None,
    }
}

pub open spec fn beacon_property_ok(v: JsonV) -> bool {
    str_field_ok(v, "hwid"@) && opt_str_ok(jv_field(v, "dm"@))
}

pub open spec fn beacon_property_rel(v: JsonV, p: BeaconCommonProperty) -> bool {
    &&& jv_field(v, "hwid"@) == Some(JsonV::Str(p.hwid@))
    &&& opt_str_rel(jv_field(v, "dm"@), p.dm)
}

pub open spec fn beacon_ok(v: JsonV) -> bool {
    match jv_field(v, "type"@) {
        Some(JsonV::Str(t)) => (t == "enter"@ || t == "leave"@ || t == "banner"@)
            && beacon_property_ok(v),
        _ => false,
    }
}

pub open spec fn beacon_rel(v: JsonV, b: Beacon) -> bool {
    match b {
        Beacon::Enter { property } => jv_field(v, "type"@) == Some(JsonV::Str("enter"@))
            && beacon_property_rel(v, property),
        Beacon::Leave { property } => jv_field(v, "type"@) == Some(JsonV::Str("leave"@))
            && beacon_property_rel(v, property),
        Beacon::Banner { property } => jv_field(v, "type"@) == Some(JsonV::Str("banner"@))
            && beacon_property_rel(v, property),
    }
}

pub fn beacon_from(v: &Json) -> (r: Option<Beacon>)
    ensures
        r is Some <==> beacon_ok(jview(*v)),
        r matches Some(b) ==> beacon_rel(jview(*v), b),
{
    let ty = match get_str_field(v, "type") {
        Some(t) => t,
        None => {
            return None;
        },
    };
    let hwid = match get_str_field(v, "hwid") {
        Some(h) => h,
        None => {
            return None;
        },
    };
    let dm = match get_opt_str_field(v, "dm") {
        Some(d) => d,
        None => {
            return None;
        },
    };
    let property = BeaconCommonProperty { hwid, dm };
    if crate::json::str_eq(ty.as_str(), "enter") {
        Some(Beacon::Enter { property })
    } else if crate::json::str_eq(ty.as_str(), "leave") {
        Some(Beacon::Leave { property })
    } else if crate::json::str_eq(ty.as_str(), "banner") {
        Some(Beacon::Banner { property })
    } else {
        None
    }
}

pub open spec fn link_ok(v: JsonV) -> bool {
    match jv_field(v, "result"@) {
        Some(JsonV::Str(t)) => (t == "ok"@ || t == "failed"@) && str_field_ok(v, "nonce"@),
        _ => false,
    }
}

pub open spec fn link_rel(v: JsonV, l: Link) -> bool {
    &&& match l.result {
        LinkResult::Success => jv_field(v, "result"@) == Some(JsonV::Str("ok"@)),
        LinkResult::Failed => jv_field(v, "result"@) == Some(JsonV::Str("failed"@)),
    }
    &&& jv_field(v, "nonce"@) == Some(JsonV::Str(l.nonce@))
}

pub fn link_from(v: &Json) -> (r: Option<Link>)
    ensures
        r is Some <==> link_ok(jview(*v)),
        r matches Some(l) ==> link_rel(jview(*v), l),
{
    let res = match get_str_field(v, "result") {
        Some(t) => t,
        None => {
            return None;
        },
    };
    let nonce = match get_str_field(v, "nonce") {
        Some(x) => x,
        None => {
            return None;
        },
    };
    if crate::json::str_eq(res.as_str(), "ok") {
        Some(Link { result: LinkResult::Success, nonce })
    } else if crate::json::str_eq(res.as_str(), "failed") {
        Some(Link { result: LinkResult::Failed, nonce })
    } else {
        None
    }
}

pub open spec fn things_ok(v: JsonV) -> bool {
    match jv_field(v, "type"@) {
        Some(JsonV::Str(t)) => (t == "link"@ || t == "unlink"@) && str_field_ok(v, "deviceId"@),
        _ => false,
    }
}

pub open spec fn things_rel(v: JsonV, th: Things) -> bool {
    match th {
        Things::Link { device_id } => {
            &&& jv_field(v, "type"@) == Some(JsonV::Str("link"@))
            &&& jv_field(v, "deviceId"@) == Some(JsonV::Str(device_id@))
        },
        Things::Unlink { device_id } => {
            &&& jv_field(v, "type"@) == Some(JsonV::Str("unlink"@))
            &&& jv_field(v, "deviceId"@) == Some(JsonV::Str(device_id@))
        },
    }
}

pub fn things_from(v: &Json) -> (r: Option<Things>)
    ensures
        r is Some <==> things_ok(jview(*v)),
        r matches Some(th) ==> things_rel(jview(*v), th),
{
    let ty = match get_str_field(v, "type") {
        Some(t) => t,
        None => {
            return None;
        },
    };
    let device_id = match get_str_field(v, "deviceId") {
        Some(d) => d,
        None => {
            return None;
        },
    };
    if crate::json::str_eq(ty.as_str(), "link") {
        Some(Things::Link { device_id })
    } else if crate::json::str_eq(ty.as_str(), "unlink") {
        Some(Things::Unlink { device_id })
    } else {
        None
    }
}

// ---------------------------------------------------------------------------
// Messages
// ---------------------------------------------------------------------------

pub open spec fn content_provider_field_ok(v: JsonV) -> bool {
    jv_field(v, "contentProvider"@) matches Some(c) && content_provider_ok(c)
}

pub open spec fn message_ok(v: JsonV) -> bool {
    match jv_field(v, "type"@) {
        Some(JsonV::Str(t)) => if t == "text"@ {
            str_field_ok(v, "id"@) && str_field_ok(v, "text"@)
        } else if t == "image"@ {
            str_field_ok(v, "id"@) && content_provider_field_ok(v)
        } else if t == "video"@ || t == "audio"@ {
            str_field_ok(v, "id"@) && num_field_ok(v, "duration"@) && content_provider_field_ok(v)
        } else if t == "file"@ {
            str_field_ok(v, "id"@) && str_field_ok(v, "fileName"@) && num_field_ok(v, "fileSize"@)
        } else if t == "location"@ {
            str_field_ok(v, "id"@) && str_field_ok(v, "title"@) && str_field_ok(v, "address"@)
                && num_field_ok(v, "latitude"@) && num_field_ok(v, "longitude"@)
        } else if t == "sticker"@ {
            str_field_ok(v, "id"@) && str_field_ok(v, "packageId"@) && str_field_ok(
                v,
                "stickerId"@,
            )
        } else {
            false
        },
        _ => false,
    }
}

pub open spec fn message_rel(v: JsonV, m: WebhookMessage) -> bool {
    match m {
        WebhookMessage::Text { id, text } => {
            &&& jv_field(v, "type"@) == Some(JsonV::Str("text"@))
            &&& jv_field(v, "id"@) == Some(JsonV::Str(id@))
            &&& jv_field(v, "text"@) == Some(JsonV::Str(text@))
        },
        WebhookMessage::Image { id, content_provider } => {
            &&& jv_field(v, "type"@) == Some(JsonV::Str("image"@))
            &&& jv_field(v, "id"@) == Some(JsonV::Str(id@))
            &&& jv_field(v, "contentProvider"@) matches Some(c) && content_provider_rel(
                c,
                content_provider,
            )
        },
        WebhookMessage::Video { id, duration, content_provider } => {
            &&& jv_field(v, "type"@) == Some(JsonV::Str("video"@))
            &&& jv_field(v, "id"@) == Some(JsonV::Str(id@))
            &&& jv_field(v, "duration"@) == Some(JsonV::Num(duration@))
            &&& jv_field(v, "contentProvider"@) matches Some(c) && content_provider_rel(
                c,
                content_provider,
            )
        },
        WebhookMessage::Audio { id, duration, content_provider } => {
            &&& jv_field(v, "type"@) == Some(JsonV::Str("audio"@))
            &&& jv_field(v, "id"@) == Some(JsonV::Str(id@))
            &&& jv_field(v, "duration"@) == Some(JsonV::Num(duration@))
            &&& jv_field(v, "contentProvider"@) matches Some(c) && content_provider_rel(
                c,
                content_provider,
            )
        },
        WebhookMessage::File { id, file_name, file_size } => {
            &&& jv_field(v, "type"@) == Some(JsonV::Str("file"@))
            &&& jv_field(v, "id"@) == Some(JsonV::Str(id@))
            &&& jv_field(v, "fileName"@) == Some(JsonV::Str(file_name@))
            &&& jv_field(v, "fileSize"@) == Some(JsonV::Num(file_size@))
        },
        WebhookMessage::Location { id, title, address, latitude, longitude } => {
            &&& jv_field(v, "type"@) == Some(JsonV::Str("location"@))
            &&& jv_field(v, "id"@) == Some(JsonV::Str(id@))
            &&& jv_field(v, "title"@) == Some(JsonV::Str(title@))
            &&& jv_field(v, "address"@) == Some(JsonV::Str(address@))
            &&& jv_field(v, "latitude"@) == Some(JsonV::Num(latitude@))
            &&& jv_field(v, "longitude"@) == Some(JsonV::Num(longitude@))
        },
        WebhookMessage::Sticker { id, package_id, sticker_id } => {
            &&& jv_field(v, "type"@) == Some(JsonV::Str("sticker"@))
            &&& jv_field(v, "id"@) == Some(JsonV::Str(id@))
            &&& jv_field(v, "packageId"@) == Some(JsonV::Str(package_id@))
            &&& jv_field(v, "stickerId"@) == Some(JsonV::Str(sticker_id@))
        },
    }
}

pub fn message_from(v: &Json) -> (r: Option<WebhookMessage>)
    ensures
        r is Some <==> message_ok(jview(*v)),
        r matches Some(m) ==> message_rel(jview(*v), m),
{
    let ty = match get_str_field(v, "type") {
        Some(t) => t,
        None => {
            return None;
        },
    };
    let id = match get_str_field(v, "id") {
        Some(i) => i,
        None => {
            return None;
        },
    };
    if crate::json::str_eq(ty.as_str(), "text") {
        match get_str_field(v, "text") {
            Some(text) => Some(WebhookMessage::Text { id, text }),
            None => None,
        }
    } else if crate::json::str_eq(ty.as_str(), "image") {
        match message_content_provider(v) {
            Some(cp) => Some(WebhookMessage::Image { id, content_provider: cp }),
            None => None,
        }
    } else if crate::json::str_eq(ty.as_str(), "video") {
        let duration = match get_num_field(v, "duration") {
            Some(d) => d,
            None => {
                return None;
            },
        };
        match message_content_provider(v) {
            Some(cp) => Some(WebhookMessage::Video { id, duration, content_provider: cp }),
            None => None,
        }
    } else if crate::json::str_eq(ty.as_str(), "audio") {
        let duration = match get_num_field(v, "duration") {
            Some(d) => d,
            None => {
                return None;
            },
        };
        match message_content_provider(v) {
            Some(cp) => Some(WebhookMessage::Audio { id, duration, content_provider: cp }),
            None => None,
        }
    } else if crate::json::str_eq(ty.as_str(), "file") {
        let file_name = match get_str_field(v, "fileName") {
            Some(f) => f,
            None => {
                return None;
            },
        };
        match get_num_field(v, "fileSize") {
            Some(file_size) => Some(WebhookMessage::File { id, file_name, file_size }),
            None => None,
        }
    } else if crate::json::str_eq(ty.as_str(), "location") {
        let title = match get_str_field(v, "title") {
            Some(x) => x,
            None => {
                return None;
            },
        };
        let address = match get_str_field(v, "address") {
            Some(x) => x,
            None => {
                return None;
            },
        };
        let latitude = match get_num_field(v, "latitude") {
            Some(x) => x,
            None => {
                return None;
            },
        };
        match get_num_field(v, "longitude") {
            Some(longitude) => Some(
                WebhookMessage::Location { id, title, address, latitude, longitude },
            ),
            None => None,
        }
    } else if crate::json::str_eq(ty.as_str(), "sticker") {
        let package_id = match get_str_field(v, "packageId") {
            Some(x) => x,
            None => {
                return None;
            },
        };
        match get_str_field(v, "stickerId") {
            Some(sticker_id) => Some(WebhookMessage::Sticker { id, package_id, sticker_id }),
            None => None,
        }
    } else {
        None
    }
}

/// Reads the `contentProvider` member of a message object.
fn message_content_provider(v: &Json) -> (r: Option<ContentProvider>)
    ensures
        r is Some <==> content_provider_field_ok(jview(*v)),
        r matches Some(cp) ==> jv_field(jview(*v), "contentProvider"@) matches Some(c)
            && content_provider_rel(c, cp),
{
    match obj_get(v, "contentProvider") {
        Some(c) => content_provider_from(c),
        None => None,
    }
}

// ---------------------------------------------------------------------------
// Member lists
// ---------------------------------------------------------------------------

/// Whether `v` is an array of well-formed source objects.
pub open spec fn sources_ok(v: JsonV) -> bool {
    v matches JsonV::Arr(es) && (forall|k: int| 0 <= k < es.len() ==> source_ok(#[trigger] es[k]))
}

pub open spec fn sources_rel(v: JsonV, ms: Seq<Source>) -> bool {
    v matches JsonV::Arr(es) && es.len() == ms.len() && (forall|k: int|
        0 <= k < es.len() ==> source_rel(#[trigger] es[k], ms[k]))
}

pub fn sources_from(v: &Json) -> (r: Option<Vec<Source>>)
    ensures
        r is Some <==> sources_ok(jview(*v)),
        r matches Some(ms) ==> sources_rel(jview(*v), ms@),
{
    match v {
        Json::Arr(es) => {
            let ghost av = crate::json::jview_seq(es@);
            proof {
                assert(*v == Json::Arr(*es));
                crate::json::lemma_jview_arr(*es);
            }
            let n = es.len();
            let mut out: Vec<Source> = Vec::new();
            let mut i: usize = 0;
            while i < n
                invariant
                    0 <= i <= n,
                    n == es@.len(),
                    av == crate::json::jview_seq(es@),
                    av.len() == n,
                    jview(*v) == JsonV::Arr(av),
                    out@.len() == i,
                    forall|k: int| 0 <= k < i ==> source_ok(#[trigger] av[k]),
                    forall|k: int| 0 <= k < i ==> source_rel(#[trigger] av[k], out@[k]),
                decreases n - i,
            {
                proof {
                    assert(av[i as int] == jview(es@[i as int]));
                }
                match source_from(&es[i]) {
                    Some(s) => {
                        out.push(s);
                    },
                    None => {
                        proof {
                            assert(!source_ok(av[i as int]));
                            assert(jview(*v)->Arr_0 == av);
                        }
                        return None;
                    },
                }
                i = i + 1;
            }
            Some(out)
        },
        _ => None,
    }
}

// ---------------------------------------------------------------------------
// Events
// ---------------------------------------------------------------------------

pub open spec fn common_ok(v: JsonV) -> bool {
    &&& opt_str_ok(jv_field(v, "replyToken"@))
    &&& num_field_ok(v, "timestamp"@)
    &&& jv_field(v, "source"@) matches Some(sv) && source_ok(sv)
}

pub open spec fn common_rel(v: JsonV, p: EventCommonProperty) -> bool {
    &&& opt_str_rel(jv_field(v, "replyToken"@), p.reply_token)
    &&& jv_field(v, "timestamp"@) == Some(JsonV::Num(p.timestamp@))
    &&& jv_field(v, "source"@) matches Some(sv) && source_rel(sv, p.source)
}

/// Reads the property bundle that every event carries.
fn common_from(v: &Json) -> (r: Option<EventCommonProperty>)
    ensures
        r is Some <==> common_ok(jview(*v)),
        r matches Some(p) ==> common_rel(jview(*v), p),
{
    let reply_token = match get_opt_str_field(v, "replyToken") {
        Some(o) => o,
        None => {
            return None;
        },
    };
    let timestamp = match get_num_field(v, "timestamp") {
        Some(t) => t,
        None => {
            return None;
        },
    };
    let sv = match obj_get(v, "source") {
        Some(s) => s,
        None => {
            return None;
        },
    };
    match source_from(sv) {
        Some(source) => Some(EventCommonProperty { reply_token, timestamp, source }),
        None => None,
    }
}

pub open spec fn joined_ok(v: JsonV) -> bool {
    jv_field(v, "members"@) matches Some(a) && sources_ok(a)
}

pub open spec fn joined_rel(v: JsonV, ms: Seq<Source>) -> bool {
    jv_field(v, "members"@) matches Some(a) && sources_rel(a, ms)
}

/// Reads the `members` list of a member-joined or member-left payload.
fn members_from(v: &Json) -> (r: Option<Vec<Source>>)
    ensures
        r is Some <==> joined_ok(jview(*v)),
        r matches Some(ms) ==> joined_rel(jview(*v), ms@),
{
    match obj_get(v, "members") {
        Some(a) => sources_from(a),
        None => None,
    }
}

pub open spec fn event_ok(v: JsonV) -> bool {
    match jv_field(v, "type"@) {
        Some(JsonV::Str(t)) => if t == "message"@ {
            common_ok(v) && (jv_field(v, "message"@) matches Some(m) && message_ok(m))
        } else if t == "follow"@ || t == "unfollow"@ || t == "join"@ || t == "leave"@ {
            common_ok(v)
        } else if t == "memberJoined"@ {
            common_ok(v) && (jv_field(v, "joined"@) matches Some(j) && joined_ok(j))
        } else if t == "memberLeft"@ {
            common_ok(v) && (jv_field(v, "left"@) matches Some(j) && joined_ok(j))
        } else if t == "postback"@ {
            common_ok(v) && (jv_field(v, "postback"@) matches Some(p) && postback_ok(p))
        } else if t == "beacon"@ {
            common_ok(v) && (jv_field(v, "beacon"@) matches Some(b) && beacon_ok(b))
        } else if t == "accountLink"@ {
            common_ok(v) && (jv_field(v, "link"@) matches Some(l) && link_ok(l))
        } else if t == "things"@ {
            common_ok(v) && (jv_field(v, "things"@) matches Some(th) && things_ok(th))
        } else {
            false
        },
        _ => false,
    }
}

pub open spec fn event_rel(v: JsonV, e: WebhookEvent) -> bool {
    match e {
        WebhookEvent::Message { property, message } => {
            &&& jv_field(v, "type"@) == Some(JsonV::Str("message"@))
            &&& common_rel(v, property)
            &&& jv_field(v, "message"@) matches Some(m) && message_rel(m, message)
        },
        WebhookEvent::Follow { property } => {
            &&& jv_field(v, "type"@) == Some(JsonV::Str("follow"@))
            &&& common_rel(v, property)
        },
        WebhookEvent::Unfollow { property } => {
            &&& jv_field(v, "type"@) == Some(JsonV::Str("unfollow"@))
            &&& common_rel(v, property)
        },
        WebhookEvent::Join { property } => {
            &&& jv_field(v, "type"@) == Some(JsonV::Str("join"@))
            &&& common_rel(v, property)
        },
        WebhookEvent::Leave { property } => {
            &&& jv_field(v, "type"@) == Some(JsonV::Str("leave"@))
            &&& common_rel(v, property)
        },
        WebhookEvent::MemberJoined { property, joined } => {
            &&& jv_field(v, "type"@) == Some(JsonV::Str("memberJoined"@))
            &&& common_rel(v, property)
            &&& jv_field(v, "joined"@) matches Some(j) && joined_rel(j, joined.members@)
        },
        WebhookEvent::MemberLeft { property, left } => {
            &&& jv_field(v, "type"@) == Some(JsonV::Str("memberLeft"@))
            &&& common_rel(v, property)
            &&& jv_field(v, "left"@) matches Some(j) && joined_rel(j, left.members@)
        },
        WebhookEvent::Postback { property, postback } => {
            &&& jv_field(v, "type"@) == Some(JsonV::Str("postback"@))
            &&& common_rel(v, property)
            &&& jv_field(v, "postback"@) matches Some(p) && postback_rel(p, postback)
        },
        WebhookEvent::Beacon { property, beacon } => {
            &&& jv_field(v, "type"@) == Some(JsonV::Str("beacon"@))
            &&& common_rel(v, property)
            &&& jv_field(v, "beacon"@) matches Some(b) && beacon_rel(b, beacon)
        },
        WebhookEvent::AccountLink { property, link } => {
            &&& jv_field(v, "type"@) == Some(JsonV::Str("accountLink"@))
            &&& common_rel(v, property)
            &&& jv_field(v, "link"@) matches Some(l) && link_rel(l, link)
        },
        WebhookEvent::Things { property, things } => {
            &&& jv_field(v, "type"@) == Some(JsonV::Str("things"@))
            &&& common_rel(v, property)
            &&& jv_field(v, "things"@) matches Some(th) && things_rel(th, things)
        },
    }
}

/// Reads one event object.
pub fn event_from(v: &Json) -> (r: Option<WebhookEvent>)
    ensures
        r is Some <==> event_ok(jview(*v)),
        r matches Some(e) ==> event_rel(jview(*v), e),
{
    let ty = match get_str_field(v, "type") {
        Some(t) => t,
        None => {
            return None;
        },
    };
    let property = match common_from(v) {
        Some(p) => p,
        None => {
            return None;
        },
    };
    if crate::json::str_eq(ty.as_str(), "message") {
        let m = match obj_get(v, "message") {
            Some(m) => m,
            None => {
                return None;
            },
        };
        match message_from(m) {
            Some(message) => Some(WebhookEvent::Message { property, message }),
            None => None,
        }
    } else if crate::json::str_eq(ty.as_str(), "follow") {
        Some(WebhookEvent::Follow { property })
    } else if crate::json::str_eq(ty.as_str(), "unfollow") {
        Some(WebhookEvent::Unfollow { property })
    } else if crate::json::str_eq(ty.as_str(), "join") {
        Some(WebhookEvent::Join { property })
    } else if crate::json::str_eq(ty.as_str(), "leave") {
        Some(WebhookEvent::Leave { property })
    } else if crate::json::str_eq(ty.as_str(), "memberJoined") {
        let j = match obj_get(v, "joined") {
            Some(j) => j,
            None => {
                return None;
            },
        };
        match members_from(j) {
            Some(members) => Some(
                WebhookEvent::MemberJoined { property, joined: Joined { members } },
            ),
            None => None,
        }
    } else if crate::json::str_eq(ty.as_str(), "memberLeft") {
        let j = match obj_get(v, "left") {
            Some(j) => j,
            None => {
                return None;
            },
        };
        match members_from(j) {
            Some(members) => Some(WebhookEvent::MemberLeft { property, left: Left { members } }),
            None => None,
        }
    } else if crate::json::str_eq(ty.as_str(), "postback") {
        let p = match obj_get(v, "postback") {
            Some(p) => p,
            None => {
                return None;
            },
        };
        match postback_from(p) {
            Some(postback) => Some(WebhookEvent::Postback { property, postback }),
            None => None,
        }
    } else if crate::json::str_eq(ty.as_str(), "beacon") {
        let b = match obj_get(v, "beacon") {
            Some(b) => b,
            None => {
                return None;
            },
        };
        match beacon_from(b) {
            Some(beacon) => Some(WebhookEvent::Beacon { property, beacon }),
            None => None,
        }
    } else if crate::json::str_eq(ty.as_str(), "accountLink") {
        let l = match obj_get(v, "link") {
            Some(l) => l,
            None => {
                return None;
            },
        };
        match link_from(l) {
            Some(link) => Some(WebhookEvent::AccountLink { property, link }),
            None => None,
        }
    } else if crate::json::str_eq(ty.as_str(), "things") {
        let th = match obj_get(v, "things") {
            Some(th) => th,
            None => {
                return None;
            },
        };
        match things_from(th) {
            Some(things) => Some(WebhookEvent::Things { property, things }),
            None => None,
        }
    } else {
        None
    }
}

/// Whether `v` is an array of well-formed events.
pub open spec fn events_ok(v: JsonV) -> bool {
    v matches JsonV::Arr(es) && (forall|k: int| 0 <= k < es.len() ==> event_ok(#[trigger] es[k]))
}

pub open spec fn events_rel(v: JsonV, evs: Seq<WebhookEvent>) -> bool {
    v matches JsonV::Arr(es) && es.len() == evs.len() && (forall|k: int|
        0 <= k < es.len() ==> event_rel(#[trigger] es[k], evs[k]))
}

/// Reads the `events` array of a delivery body.
pub fn events_from(v: &Json) -> (r: Option<Vec<WebhookEvent>>)
    ensures
        r is Some <==> events_ok(jview(*v)),
        r matches Some(evs) ==> events_rel(jview(*v), evs@),
{
    match v {
        Json::Arr(es) => {
            let ghost av = crate::json::jview_seq(es@);
            proof {
                assert(*v == Json::Arr(*es));
                crate::json::lemma_jview_arr(*es);
            }
            let n = es.len();
            let mut out: Vec<WebhookEvent> = Vec::new();
            let mut i: usize = 0;
            while i < n
                invariant
                    0 <= i <= n,
                    n == es@.len(),
                    av == crate::json::jview_seq(es@),
                    av.len() == n,
                    jview(*v) == JsonV::Arr(av),
                    out@.len() == i,
                    forall|k: int| 0 <= k < i ==> event_ok(#[trigger] av[k]),
                    forall|k: int| 0 <= k < i ==> event_rel(#[trigger] av[k], out@[k]),
                decreases n - i,
            {
                proof {
                    assert(av[i as int] == jview(es@[i as int]));
                }
                match event_from(&es[i]) {
                    Some(e) => {
                        out.push(e);
                    },
                    None => {
                        proof {
                            assert(!event_ok(av[i as int]));
                            assert(jview(*v)->Arr_0 == av);
                        }
                        return None;
                    },
                }
                i = i + 1;
            }
            Some(out)
        },
        _ => None,
    }
}

/// The reply token an event carries, if any.
pub open spec fn spec_reply_token(e: WebhookEvent) -> Option<String> {
    match e {
        WebhookEvent::Message { property, .. } => property.reply_token,
        WebhookEvent::Follow { property } => property.reply_token,
        WebhookEvent::Unfollow { property } => property.reply_token,
        WebhookEvent::Join { property } => property.reply_token,
        WebhookEvent::Leave { property } => property.reply_token,
        WebhookEvent::MemberJoined { property, .. } => property.reply_token,
        WebhookEvent::MemberLeft { property, .. } => property.reply_token,
        WebhookEvent::Postback { property, .. } => property.reply_token,
        WebhookEvent::Beacon { property, .. } => property.reply_token,
        WebhookEvent::AccountLink { property, .. } => property.reply_token,
        WebhookEvent::Things { property, .. } => property.reply_token,
    }
}

impl WebhookEvent {
    /// Takes the reply token out of the event's common property bundle.
    pub fn get_reply_token(self) -> (r: Option<String>)
        ensures
            r == spec_reply_token(self),
    {
        match self {
            WebhookEvent::Message { property, .. } => property.reply_token,
            WebhookEvent::Follow { property } => property.reply_token,
            WebhookEvent::Unfollow { property } => property.reply_token,
            WebhookEvent::Join { property } => property.reply_token,
            WebhookEvent::Leave { property } => property.reply_token,
            WebhookEvent::MemberJoined { property, .. } => property.reply_token,
            WebhookEvent::MemberLeft { property, .. } => property.reply_token,
            WebhookEvent::Postback { property, .. } => property.reply_token,
            WebhookEvent::Beacon { property, .. } => property.reply_token,
            WebhookEvent::AccountLink { property, .. } => property.reply_token,
            WebhookEvent::Things { property, .. } => property.reply_token,
        }
    }
}

/// Whether `s` is a JSON document holding one well-formed message object.
pub open spec fn message_json_ok(s: Seq<char>) -> bool {
    crate::json::jdoc(s) matches Some(v) && message_ok(v)
}

/// Parses a single message object from JSON text.
pub fn message_from_json(s: &str) -> (r: Option<WebhookMessage>)
    ensures
        r is Some <==> message_json_ok(s@),
        r matches Some(m) ==> crate::json::jdoc(s@) matches Some(v) && message_rel(v, m),
{
    match crate::json::parse_json(s) {
        Some(j) => message_from(&j),
        None => None,
    }
}

} // verus!
