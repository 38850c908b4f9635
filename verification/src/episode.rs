//! The fetched episode record and the interpretation of the metadata
//! service's reply: status handling and the decode of the JSON body.

use vstd::prelude::*;

verus! {

/// The metadata of one fetched episode.
#[derive(Debug, Clone, PartialEq, Eq)]
pub struct EpisodeRecord {
    pub name: String,
    pub overview: String,
    pub still_path: Option<String>,
}

impl View for EpisodeRecord {
    type V = (Seq<char>, Seq<char>, Option<Seq<char>>);

    open spec fn view(&self) -> Self::V {
        (
            self.name@,
            self.overview@,
            match self.still_path {
                Some(p) => Some(p@),
                None => None,
            },
        )
    }
}

/// Why one randomize cycle ended without an episode record.
#[derive(Debug, Clone, PartialEq, Eq)]
pub enum FetchError {
    /// Every show was toggled off, so no request was made.
    NoEligibleShow,
    /// The request never completed; the payload describes the transport
    /// failure.
    Transport(String),
    /// The service answered with a non-success HTTP status.
    BadStatus(u16),
    /// The reply body did not decode to an episode record.
    Undecodable,
}

/// The mutually exclusive result of one fetch attempt.
#[derive(Debug, Clone, PartialEq, Eq)]
pub enum FetchOutcome {
    Success(EpisodeRecord),
    Failure(FetchError),
}

#[verifier::external_type_specification]
#[verifier::external_body]
pub struct ExJsonValue(serde_json::Value);

/// The string-valued members of the JSON document written in `s`, as a map
/// from member name to string content; `None` when `s` is not valid JSON.
/// A document whose top level is not an object has no such members and maps
/// to `Some` of the empty map.
pub uninterp spec fn json_string_members(s: Seq<char>) -> Option<Map<Seq<char>, Seq<char>>>;

/// The string-valued members of the JSON value `v`, as a map from member
/// name to string content; the empty map when `v` is not an object.
pub uninterp spec fn string_members(v: serde_json::Value) -> Map<Seq<char>, Seq<char>>;

/// Relies on serde_json::from_str::<serde_json::Value>: it succeeds exactly
/// on valid JSON text, and the value it returns depends on the text alone.
#[verifier::external_body]
fn parse_json(body: &str) -> (r: Option<serde_json::Value>)
    ensures
        match r {
            Some(v) => json_string_members(body@) == Some(string_members(v)),
            None => json_string_members(body@) is None,
        },
{
    serde_json::from_str::<serde_json::Value>(body).ok()
}

/// Relies on serde_json::Value::get with a string index and on
/// serde_json::Value::as_str: together they return the content of the named
/// member exactly when `v` is an object whose member `key` holds a string.
#[verifier::external_body]
fn get_string_member(v: &serde_json::Value, key: &str) -> (r: Option<String>)
    ensures
        match r {
            Some(s) => string_members(*v).contains_key(key@) && string_members(*v)[key@] == s@,
            None => !string_members(*v).contains_key(key@),
        },
{
    match v.get(key) {
        Some(member) => match member.as_str() {
            Some(s) => Some(s.to_owned()),
            None => None,
        },
        None => None,
    }
}

/// The (name, overview, still path) triple that a reply body decodes to, or
/// `None` when the body is not valid JSON or lacks a string member `name`
/// or `overview`.
pub open spec fn spec_decode_episode(s: Seq<char>) -> Option<
    (Seq<char>, Seq<char>, Option<Seq<char>>),
> {
    match json_string_members(s) {
        Some(m) => if m.contains_key("name"@) && m.contains_key("overview"@) {
            Some(
                (
                    m["name"@],
                    m["overview"@],
                    if m.contains_key("still_path"@) {
                        Some(m["still_path"@])
                    } else {
                        None
                    },
                ),
            )
        } else {
            None
        },
        None => None,
    }
}

/// Decode a reply body into an episode record: the body must be a JSON
/// object with string members `name` and `overview`; a string member
/// `still_path` is carried along when present.
pub fn decode_episode(body: &str) -> (r: Option<EpisodeRecord>)
    ensures
        match spec_decode_episode(body@) {
            Some(t) => r matches Some(rec) && rec@ == t,
            None => r is None,
        },
{
    let v = match parse_json(body) {
        Some(v) => v,
        None => { return None; },
    };
    let name = match get_string_member(&v, "name") {
        Some(s) => s,
        None => { return None; },
    };
    let overview = match get_string_member(&v, "overview") {
        Some(s) => s,
        None => { return None; },
    };
    let still_path = get_string_member(&v, "still_path");
    Some(EpisodeRecord { name, overview, still_path })
}

/// Whether an HTTP status code counts as success.
pub open spec fn spec_success_status(status: u16) -> bool {
    200 <= status < 300
}

/// Turn one completed HTTP reply into a fetch outcome: a record exactly
/// when the status is a success and the body decodes; otherwise the error
/// that names what went wrong.
pub fn interpret_response(status: u16, body: &str) -> (r: FetchOutcome)
    ensures
        r is Success <==> spec_success_status(status) && spec_decode_episode(body@) is Some,
        r matches FetchOutcome::Success(rec) ==> spec_decode_episode(body@) matches Some(t)
            && rec@ == t,
        !spec_success_status(status) ==> r == FetchOutcome::Failure(FetchError::BadStatus(status)),
        spec_success_status(status) && spec_decode_episode(body@) is None ==> r
            == FetchOutcome::Failure(FetchError::Undecodable),
{
    if !(status >= 200 && status < 300) {
        return FetchOutcome::Failure(FetchError::BadStatus(status));
    }
    match decode_episode(body) {
        Some(rec) => FetchOutcome::Success(rec),
        None => FetchOutcome::Failure(FetchError::Undecodable),
    }
}

} // verus!
