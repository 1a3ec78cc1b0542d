//! One webhook delivery's body: the destination channel key, the parsed
//! events, and the raw text as received. The raw text is kept because the
//! signature must be checked against the exact bytes the platform sent,
//! which re-serialization would not reproduce.

use vstd::prelude::*;
use crate::event::{WebhookEvent, events_ok, events_rel, jv_field, str_field_ok};
use crate::json::{JsonV, jdoc, jview, parse_json};

verus! {

/// A parsed delivery body.
#[derive(Debug)]
pub struct RequestBody {
    pub destination: String,
    pub events: Vec<WebhookEvent>,
    /// The delivery's text exactly as received.
    pub src: String,
}

/// Why a delivery body was rejected.
#[derive(Debug)]
pub enum RequestBodyError {
    Parse { message: String },
}

/// Whether `v` is a well-formed delivery body object.
pub open spec fn body_ok(v: JsonV) -> bool {
    &&& str_field_ok(v, "destination"@)
    &&& jv_field(v, "events"@) matches Some(ev) && events_ok(ev)
}

/// How a parsed body relates to the body object it came from.
pub open spec fn body_rel(v: JsonV, b: RequestBody) -> bool {
    &&& jv_field(v, "destination"@) == Some(JsonV::Str(b.destination@))
    &&& jv_field(v, "events"@) matches Some(ev) && events_rel(ev, b.events@)
}

/// Whether `s` is a JSON document holding a well-formed delivery body.
pub open spec fn body_accepted(s: Seq<char>) -> bool {
    jdoc(s) matches Some(v) && body_ok(v)
}

impl RequestBody {
    /// Parses a delivery body, keeping the raw text in `src`. Returns the
    /// parse error exactly when the text is not well-formed JSON or does not
    /// hold a destination string and an array of well-formed events.
    pub fn try_from(s: String) -> (r: Result<RequestBody, RequestBodyError>)
        ensures
            r matches Ok(b) ==> {
                &&& body_accepted(s@)
                &&& jdoc(s@) matches Some(v) && body_rel(v, b)
                &&& b.src == s
            },
            r is Err <==> !body_accepted(s@),
    {
        let v = match parse_json(s.as_str()) {
            Some(v) => v,
            None => {
                return Err(
                    RequestBodyError::Parse { message: "the body is not well-formed JSON".to_owned() },
                );
            },
        };
        let destination = match crate::event::get_str_field(&v, "destination") {
            Some(d) => d,
            None => {
                return Err(
                    RequestBodyError::Parse { message: "the body has no destination string".to_owned() },
                );
            },
        };
        let ev = match crate::event::obj_get(&v, "events") {
            Some(ev) => ev,
            None => {
                return Err(
                    RequestBodyError::Parse { message: "the body has no events member".to_owned() },
                );
            },
        };
        let events = match crate::event::events_from(ev) {
            Some(evs) => evs,
            None => {
                return Err(
                    RequestBodyError::Parse { message: "an event does not fit the schema".to_owned() },
                );
            },
        };
        Ok(RequestBody { destination, events, src: s })
    }
}

} // verus!
