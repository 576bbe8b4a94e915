//! The payload encodings. The engine writes and reads payloads as they are;
//! what is here recognises the names of the encodings and decodes a payload
//! for a caller that wants its fields.

use vstd::prelude::*;
use std::collections::HashMap;
use crate::config::SerializationEncoding;
use crate::error::CacheError;
use crate::text::text_eq;

verus! {

pub const MSGPACK: &'static str = "msgpack";
pub const JSON: &'static str = "json";

#[verifier::external_type_specification]
#[verifier::external_body]
pub struct ExJsonValue(serde_json::Value);

#[verifier::external_type_specification]
#[verifier::external_body]
pub struct ExJsonError(serde_json::Error);

#[verifier::external_type_specification]
#[verifier::external_body]
pub struct ExMsgPackError(rmp_serde::decode::Error);

/// The encoding that a name stands for.
pub open spec fn encoding_named(name: Seq<char>) -> Option<SerializationEncoding> {
    if name == MSGPACK@ {
        Some(SerializationEncoding::MsgPack)
    } else if name == JSON@ {
        Some(SerializationEncoding::Json)
    } else {
        None
    }
}

/// The encoding that a name stands for: `msgpack` or `json`.
pub fn parse_encoding(name: &str) -> (r: Result<SerializationEncoding, CacheError>)
    ensures
        match r {
            Ok(encoding) => encoding_named(name@) == Some(encoding),
            Err(e) => e == CacheError::UnsupportedEncoding && encoding_named(name@) is None,
        },
{
    if text_eq(name, MSGPACK) {
        Ok(SerializationEncoding::MsgPack)
    } else if text_eq(name, JSON) {
        Ok(SerializationEncoding::Json)
    } else {
        Err(CacheError::UnsupportedEncoding)
    }
}

/// The name of the encoding to use: the configured one, or `msgpack` where
/// none is configured.
pub fn get_encoding(configured: Option<&str>) -> (r: String)
    ensures
        r@ == match configured {
            Some(name) => name@,
            None => MSGPACK@,
        },
{
    match configured {
        Some(name) => name.to_owned(),
        None => MSGPACK.to_owned(),
    }
}

/// The fields that a MessagePack payload decodes to, if it decodes to a map
/// from text to values.
pub uninterp spec fn msgpack_fields(payload: Seq<u8>) -> Option<Map<String, serde_json::Value>>;

/// The fields that a JSON payload decodes to, if it decodes to a map from
/// text to values.
pub uninterp spec fn json_fields(payload: Seq<u8>) -> Option<Map<String, serde_json::Value>>;

/// Calls `rmp_serde::from_slice` for a map from text to JSON values. The
/// outcome depends on the bytes alone: the map that they decode to, or an
/// error where they decode to none.
#[verifier::external_body]
pub(crate) fn decode_msgpack(payload: &[u8]) -> (r: Result<
    HashMap<String, serde_json::Value>,
    rmp_serde::decode::Error,
>)
    ensures
        match r {
            Ok(fields) => msgpack_fields(payload@) == Some(fields@),
            Err(_) => msgpack_fields(payload@) is None,
        },
{
    rmp_serde::from_slice(payload)
}

/// Calls `serde_json::from_slice` for a map from text to JSON values. The
/// outcome depends on the bytes alone: the map that they decode to, or an
/// error where they decode to none.
#[verifier::external_body]
pub(crate) fn decode_json(payload: &[u8]) -> (r: Result<
    HashMap<String, serde_json::Value>,
    serde_json::Error,
>)
    ensures
        match r {
            Ok(fields) => json_fields(payload@) == Some(fields@),
            Err(_) => json_fields(payload@) is None,
        },
{
    serde_json::from_slice(payload)
}

/// The fields that a payload decodes to by an encoding.
pub open spec fn fields_of(encoding: SerializationEncoding, payload: Seq<u8>) -> Option<
    Map<String, serde_json::Value>,
> {
    match encoding {
        SerializationEncoding::MsgPack => msgpack_fields(payload),
        SerializationEncoding::Json => json_fields(payload),
    }
}

/// What a caller is told of a decoding: the fields, or that the payload is
/// not what its encoding says.
pub fn decoded<E>(outcome: Result<HashMap<String, serde_json::Value>, E>) -> (r: Result<
    HashMap<String, serde_json::Value>,
    CacheError,
>)
    ensures
        match outcome {
            Ok(fields) => r == Ok::<HashMap<String, serde_json::Value>, CacheError>(fields),
            Err(_) => r == Err::<HashMap<String, serde_json::Value>, CacheError>(
                CacheError::Deserialize,
            ),
        },
{
    match outcome {
        Ok(fields) => Ok(fields),
        Err(_) => Err(CacheError::Deserialize),
    }
}

/// Decodes a payload by the encoding of the given name. A name that is
/// neither `msgpack` nor `json` is refused before the payload is looked at;
/// with one of the two, the caller gets the fields that the payload decodes
/// to, and a payload that decodes to none is refused.
pub fn deserialize_payload(encoding: &str, payload: &[u8]) -> (r: Result<
    HashMap<String, serde_json::Value>,
    CacheError,
>)
    ensures
        match encoding_named(encoding@) {
            None => r == Err::<HashMap<String, serde_json::Value>, CacheError>(
                CacheError::UnsupportedEncoding,
            ),
            Some(known) => match fields_of(known, payload@) {
                Some(fields) => r matches Ok(decoded_fields) && decoded_fields@ == fields,
                None => r == Err::<HashMap<String, serde_json::Value>, CacheError>(
                    CacheError::Deserialize,
                ),
            },
        },
{
    match parse_encoding(encoding) {
        Ok(SerializationEncoding::MsgPack) => decoded(decode_msgpack(payload)),
        Ok(SerializationEncoding::Json) => decoded(decode_json(payload)),
        Err(e) => Err(e),
    }
}

} // verus!
