use vstd::prelude::*;

use crate::error::{ReError, Result};
use crate::wire::{opt_str_of, str_of, uint_of, WireModel, WireValue};

verus! {

/// The store's answer to one command: exactly one of a result or an error
/// message.
#[derive(Debug)]
pub enum ReResponse<T> {
    Result(T),
    Error(String),
}

/// The model of an envelope around a wire value.
pub enum EnvelopeModel {
    Result(WireModel),
    Error(Seq<char>),
}

/// The model of an envelope around a wire value.
pub open spec fn envelope_model(r: ReResponse<WireValue>) -> EnvelopeModel {
    match r {
        ReResponse::Result(v) => EnvelopeModel::Result(v@),
        ReResponse::Error(m) => EnvelopeModel::Error(m@),
    }
}

/// The models of a sequence of envelopes, in order.
pub open spec fn envelopes_model(rs: Seq<ReResponse<WireValue>>) -> Seq<EnvelopeModel> {
    rs.map_values(|r: ReResponse<WireValue>| envelope_model(r))
}

impl<T> ReResponse<T> {
    /// Whether the envelope carries an error.
    pub fn is_error(&self) -> (r: bool)
        ensures
            r == (self is Error),
    {
        match self {
            ReResponse::Result(_) => false,
            ReResponse::Error(_) => true,
        }
    }

    /// Opens the envelope: its result, or the store's error as `Remote`.
    pub fn into_result(self) -> (r: Result<T>)
        ensures
            match self {
                ReResponse::Result(v) => r == Ok::<T, ReError>(v),
                ReResponse::Error(m) => r == Err::<T, ReError>(ReError::Remote(m)),
            },
    {
        match self {
            ReResponse::Result(v) => Ok(v),
            ReResponse::Error(m) => Err(ReError::Remote(m)),
        }
    }
}

/// What decoding an envelope as an unsigned integer gives: the store's error
/// as `Remote`, the number when the result is one in range, else `Decode`.
pub open spec fn usize_outcome(resp: ReResponse<WireValue>, r: Result<usize>) -> bool {
    match resp {
        ReResponse::Error(m) => r == Err::<usize, ReError>(ReError::Remote(m)),
        ReResponse::Result(v) => match uint_of(v@) {
            Some(n) => r == Ok::<usize, ReError>(n as usize),
            None => r == Err::<usize, ReError>(ReError::Decode),
        },
    }
}

/// What decoding an envelope as a string gives: the store's error as
/// `Remote`, the string when the result is one, else `Decode`.
pub open spec fn string_outcome(resp: ReResponse<WireValue>, r: Result<String>) -> bool {
    match resp {
        ReResponse::Error(m) => r == Err::<String, ReError>(ReError::Remote(m)),
        ReResponse::Result(v) => match str_of(v@) {
            Some(s) => r.is_ok() && r.unwrap()@ == s,
            None => r == Err::<String, ReError>(ReError::Decode),
        },
    }
}

/// What decoding an envelope as an optional string gives: the store's error
/// as `Remote`; for null, absence; for a string, that string; else `Decode`.
pub open spec fn opt_string_outcome(resp: ReResponse<WireValue>, r: Result<Option<String>>) -> bool {
    match resp {
        ReResponse::Error(m) => r == Err::<Option<String>, ReError>(ReError::Remote(m)),
        ReResponse::Result(v) => match opt_str_of(v@) {
            Some(None) => r == Ok::<Option<String>, ReError>(None),
            Some(Some(s)) => r.is_ok() && r.unwrap().is_some() && r.unwrap().unwrap()@ == s,
            None => r == Err::<Option<String>, ReError>(ReError::Decode),
        },
    }
}

/// Decodes an envelope whose result should be an unsigned integer.
pub fn decode_usize_response(resp: ReResponse<WireValue>) -> (r: Result<usize>)
    ensures
        usize_outcome(resp, r),
{
    match resp {
        ReResponse::Result(v) => v.to_usize(),
        ReResponse::Error(m) => Err(ReError::Remote(m)),
    }
}

/// Decodes an envelope whose result should be a string.
pub fn decode_string_response(resp: ReResponse<WireValue>) -> (r: Result<String>)
    ensures
        string_outcome(resp, r),
{
    match resp {
        ReResponse::Result(v) => v.to_string_value(),
        ReResponse::Error(m) => Err(ReError::Remote(m)),
    }
}

/// Decodes an envelope whose result should be a string or null.
pub fn decode_opt_string_response(resp: ReResponse<WireValue>) -> (r: Result<Option<String>>)
    ensures
        opt_string_outcome(resp, r),
{
    match resp {
        ReResponse::Result(v) => v.to_opt_string(),
        ReResponse::Error(m) => Err(ReError::Remote(m)),
    }
}

} // verus!
