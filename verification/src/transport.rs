//! The transport capability, the uniform success/error response envelope,
//! and the caller that turns raw response text into typed results.
use vstd::prelude::*;
use crate::json::FromJson;
use crate::json::Json;
use crate::json::JsonV;
use crate::json::jstr;
use crate::json::json_parse;
use crate::json::parse_json;
use crate::json::get_str;

verus! {

/// Why an operation failed: the transport, undecodable response text, or
/// an error the remote service reported.
#[derive(Clone, Debug, PartialEq)]
pub enum ApiError {
    /// Connection failure or a non-success HTTP status; the description
    /// includes any captured response body.
    Transport { message: String },
    /// The response text is not a JSON document this library reads, or it
    /// matches neither envelope variant.
    Decode,
    /// The envelope's error variant matched; carries the remote error code
    /// verbatim.
    Domain { code: String },
}

impl ApiError {
    /// A printable description; a domain error's text carries the remote
    /// code verbatim.
    pub fn message(&self) -> (r: String)
        ensures
            self matches ApiError::Transport { message } ==> r@ == message@,
            self matches ApiError::Decode ==> r@ == "response did not decode"@,
            self matches ApiError::Domain { code } ==> r@ == "qiwi error: "@ + code@,
    {
        match self {
            ApiError::Transport { message } => message.clone(),
            ApiError::Decode => String::from_str("response did not decode"),
            ApiError::Domain { code } => {
                let mut s = String::from_str("qiwi error: ");
                s.append(code.as_str());
                s
            },
        }
    }
}

/// The HTTP verbs the remote API is called with.
#[derive(Clone, Copy, Debug, PartialEq, Eq, Structural)]
pub enum Method {
    Get,
    Post,
}

/// The response envelope: either the remote error discriminant or a
/// successfully decoded document.
#[derive(Clone, Debug, PartialEq)]
pub enum Rsp<T> {
    Error { error: String },
    OK(T),
}

impl<T> Rsp<T> {
    /// The single point where remote-reported errors become the uniform
    /// failure channel: the error variant turns into a domain failure
    /// carrying the remote code; the success payload passes unchanged.
    pub fn into_result(self) -> (r: Result<T, ApiError>)
        ensures
            self matches Rsp::Error { error } ==> r == Err::<T, ApiError>(
                ApiError::Domain { code: error },
            ),
            self matches Rsp::OK(v) ==> r == Ok::<T, ApiError>(v),
    {
        match self {
            Rsp::Error { error } => Err(ApiError::Domain { code: error }),
            Rsp::OK(v) => Ok(v),
        }
    }
}

/// The request-dispatch capability: exactly one network round trip per
/// call, returning raw response text or a transport failure. The real
/// HTTP caller and the test doubles both implement this seam; nothing is
/// assumed of an implementation.
pub trait Transport {
    fn call(
        &self,
        endpoint: &str,
        method: Method,
        params: &Vec<(String, String)>,
        body: Option<&str>,
    ) -> Result<String, ApiError>;
}

/// Whether a parsed document is the envelope's error variant: it carries a
/// string `errorCode` at top level. This check comes first; the success
/// shape is only tried when it fails, so an error payload is never
/// mistaken for a success payload.
pub open spec fn envelope_is_error(v: JsonV) -> bool {
    jstr(v, "errorCode"@) is Some
}

/// Agreement of a decoded envelope with a parsed document: under the error
/// discriminant only the error variant with that code, otherwise only the
/// success variant, field for field.
pub open spec fn envelope_matches<T: FromJson>(v: JsonV, rsp: Rsp<T>) -> bool {
    if envelope_is_error(v) {
        rsp matches Rsp::Error { error } && Some(error@) == jstr(v, "errorCode"@)
    } else {
        rsp matches Rsp::OK(t) && T::shape(v) && t.agrees(v)
    }
}

/// Decoding the envelope is total and deterministic over the union: under
/// the error discriminant the result can only be the error variant.
pub proof fn lemma_envelope_error_wins<T: FromJson>(v: JsonV, rsp: Rsp<T>)
    requires
        envelope_is_error(v),
        envelope_matches::<T>(v, rsp),
    ensures
        rsp is Error,
{
}

/// Without the error discriminant the result can only be the success
/// variant, and only for documents of the success shape.
pub proof fn lemma_envelope_success_wins<T: FromJson>(v: JsonV, rsp: Rsp<T>)
    requires
        !envelope_is_error(v),
        envelope_matches::<T>(v, rsp),
    ensures
        rsp is OK,
        T::shape(v),
{
}

/// Decodes a parsed document as an envelope: the error discriminant is
/// checked before the success shape is tried.
pub fn decode_envelope<T: FromJson>(v: &Json) -> (r: Option<Rsp<T>>)
    ensures
        envelope_is_error(v@) ==> (r matches Some(rsp) && envelope_matches::<T>(v@, rsp)),
        !envelope_is_error(v@) ==> {
            &&& r is Some <==> T::shape(v@)
            &&& (r matches Some(rsp) ==> envelope_matches::<T>(v@, rsp))
        },
{
    match get_str(v, "errorCode") {
        Some(code) => Some(Rsp::Error { error: code.clone() }),
        None => match T::from_json(v) {
            Some(t) => Some(Rsp::OK(t)),
            None => None,
        },
    }
}

/// What response text yields: a decode failure when it is not a document
/// of the accepted grammar or matches neither variant, else the envelope.
/// The precondition is the parser's stated resource cap on text length.
pub fn decode_response<T: FromJson>(text: &str) -> (r: Result<Rsp<T>, ApiError>)
    requires
        text@.len() <= 1_000_000_000,
    ensures
        json_parse(text@) is None ==> r == Err::<Rsp<T>, ApiError>(ApiError::Decode),
        json_parse(text@) matches Some(v) ==> {
            &&& envelope_is_error(v) ==> (r matches Ok(rsp) && envelope_matches::<T>(v, rsp))
            &&& !envelope_is_error(v) && T::shape(v) ==> (r matches Ok(rsp)
                && envelope_matches::<T>(v, rsp))
            &&& !envelope_is_error(v) && !T::shape(v) ==> r == Err::<Rsp<T>, ApiError>(
                ApiError::Decode,
            )
        },
{
    match parse_json(text) {
        None => Err(ApiError::Decode),
        Some(doc) => match decode_envelope::<T>(&doc) {
            Some(rsp) => Ok(rsp),
            None => Err(ApiError::Decode),
        },
    }
}

/// Wraps a transport and decodes what it returns into a typed envelope;
/// cheap to share, since it holds no mutable state.
#[derive(Clone, Debug)]
pub struct CallerWrapper<T> {
    pub transport: T,
}

impl<T: Transport> CallerWrapper<T> {
    /// Dispatches one request and decodes the response. A transport error
    /// passes through verbatim; text that is no document of the accepted
    /// grammar, matches neither envelope variant, or runs past the
    /// parser's documented length cap of one billion characters, is a
    /// decode error; any success decodes from some parsed document by the
    /// envelope rule.
    pub fn call<V: FromJson>(
        &self,
        endpoint: &str,
        method: Method,
        params: &Vec<(String, String)>,
        body: Option<&str>,
    ) -> (r: Result<Rsp<V>, ApiError>)
        ensures
            r matches Ok(rsp) ==> exists|v: JsonV| #[trigger] envelope_matches::<V>(v, rsp),
    {
        match self.transport.call(endpoint, method, params, body) {
            Err(e) => Err(e),
            Ok(text) => {
                if text.as_str().unicode_len() > 1_000_000_000 {
                    return Err(ApiError::Decode);
                }
                decode_response::<V>(text.as_str())
            },
        }
    }
}

} // verus!
