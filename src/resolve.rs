use vstd::prelude::*;

use crate::error::{ParseFailure, RequestError, ServiceError, TransportError};
use crate::json::{array_of, field, json_of_text, parse_json, JsonValue};
use crate::top_artists::{attributes_from, text, top_artists_from, top_artists_shape, TopArtists};

verus! {

/// The code and message of `j`, where `j` is shaped as a service error: an
/// object with an integer member `error` and a string member `message`.
pub open spec fn service_error_of(j: JsonValue) -> Option<(i64, Seq<char>)> {
    match (field(j, "error"@), text(j, "message"@)) {
        (Some(JsonValue::Number(Some(c))), Some(m)) => Some((c, m)),
        _ => None,
    }
}

/// The list that a success body wraps under its owner's `topartists` member.
pub open spec fn envelope_of(j: JsonValue) -> Option<JsonValue> {
    field(j, "topartists"@)
}

/// `j` carries a top artists list of the expected shape.
pub open spec fn is_success_shape(j: JsonValue) -> bool {
    envelope_of(j) is Some && top_artists_shape(envelope_of(j)->Some_0)
}

/// `r` is what the document `j` resolves to: a service error wherever `j`
/// has that shape, else the list it wraps, else a shape failure.
pub open spec fn resolves_json(j: JsonValue, r: Result<TopArtists, RequestError>) -> bool {
    match service_error_of(j) {
        Some((c, m)) => r matches Err(RequestError::Service(e)) && e.code == c && e.message@ == m,
        None => if is_success_shape(j) {
            r matches Ok(t) && top_artists_from(envelope_of(j)->Some_0, t)
        } else {
            r matches Err(RequestError::Parsing(ParseFailure::Shape))
        },
    }
}

/// `r` is what the body `body` resolves to: a syntax failure where it is no
/// JSON document, else what its document resolves to.
pub open spec fn resolves_text(body: Seq<char>, r: Result<TopArtists, RequestError>) -> bool {
    match json_of_text(body) {
        None => r matches Err(RequestError::Parsing(ParseFailure::Syntax(_))),
        Some(j) => resolves_json(j, r),
    }
}

/// `r` is what a transport outcome resolves to: its own failure, or what
/// the body that it read resolves to.
pub open spec fn resolves_outcome(
    outcome: Result<String, TransportError>,
    r: Result<TopArtists, RequestError>,
) -> bool {
    match outcome {
        Err(e) => r matches Err(RequestError::Transport(f)) && f == e,
        Ok(body) => resolves_text(body@, r),
    }
}

/// A body that resolves to a list yields one artist for each entry of the
/// wrapped `artist` array, and the paging attributes as the very strings of
/// the wrapped `@attr` object, with no conversion to numbers.
pub proof fn lemma_success_keeps_entries_and_attributes(
    body: Seq<char>,
    r: Result<TopArtists, RequestError>,
)
    requires
        resolves_text(body, r),
        r is Ok,
    ensures
        json_of_text(body) is Some,
        is_success_shape(json_of_text(body)->Some_0),
        r->Ok_0.artists@.len() == array_of(
            field(envelope_of(json_of_text(body)->Some_0)->Some_0, "artist"@),
        )->Some_0.len(),
        attributes_from(
            field(envelope_of(json_of_text(body)->Some_0)->Some_0, "@attr"@)->Some_0,
            r->Ok_0.attrs,
        ),
{
}

/// A body of the error shape resolves to that service error, whether or not
/// it also holds a list of the success shape.
pub proof fn lemma_error_shape_first(body: Seq<char>, r: Result<TopArtists, RequestError>)
    requires
        resolves_text(body, r),
        json_of_text(body) is Some,
        service_error_of(json_of_text(body)->Some_0) is Some,
    ensures
        r matches Err(RequestError::Service(e)) && service_error_of(json_of_text(body)->Some_0) == Some(
            (e.code, e.message@),
        ),
{
}

/// A body that is no JSON, or is JSON of neither shape, resolves to a
/// parsing failure; no body resolves to a list unless it has the success
/// shape.
pub proof fn lemma_unparseable_is_parsing_failure(body: Seq<char>, r: Result<TopArtists, RequestError>)
    requires
        resolves_text(body, r),
    ensures
        (json_of_text(body) is None || (service_error_of(json_of_text(body)->Some_0) is None
            && !is_success_shape(json_of_text(body)->Some_0))) ==> r matches Err(RequestError::Parsing(_)),
        r is Ok ==> (json_of_text(body) is Some && is_success_shape(json_of_text(body)->Some_0)),
{
}

/// The service error that `j` reports, if it has that shape.
pub fn service_error(j: &JsonValue) -> (r: Option<ServiceError>)
    ensures
        r is Some <==> service_error_of(*j) is Some,
        r is Some ==> service_error_of(*j) == Some((r->Some_0.code, r->Some_0.message@)),
{
    let code = match j.get("error") {
        Some(JsonValue::Number(Some(c))) => Some(*c),
        _ => None,
    };
    match (code, j.get_str("message")) {
        (Some(code), Some(message)) => Some(ServiceError { code, message }),
        _ => None,
    }
}

/// Resolves a parsed response document: the error shape is tried first, so
/// a body that has it is a service error whatever else it holds.
pub fn resolve_json(j: &JsonValue) -> (r: Result<TopArtists, RequestError>)
    ensures
        resolves_json(*j, r),
{
    match service_error(j) {
        Some(e) => Err(RequestError::Service(e)),
        None => {
            let list = match j.get("topartists") {
                Some(inner) => TopArtists::decode(inner),
                None => None,
            };
            match list {
                Some(t) => Ok(t),
                None => Err(RequestError::Parsing(ParseFailure::Shape)),
            }
        },
    }
}

impl TopArtists {
    /// Resolves a response body into a top artists list or an error.
    pub fn from_body(body: &str) -> (r: Result<TopArtists, RequestError>)
        ensures
            resolves_text(body@, r),
    {
        match parse_json(body) {
            Ok(j) => resolve_json(&j),
            Err(e) => Err(RequestError::Parsing(ParseFailure::Syntax(e))),
        }
    }

    /// Resolves what the transport handed back: its failure is passed on as
    /// is, and a body it read is resolved.
    pub fn from_outcome(outcome: Result<String, TransportError>) -> (r: Result<
        TopArtists,
        RequestError,
    >)
        ensures
            resolves_outcome(outcome, r),
    {
        match outcome {
            Ok(body) => TopArtists::from_body(body.as_str()),
            Err(e) => Err(RequestError::Transport(e)),
        }
    }
}

} // verus!
