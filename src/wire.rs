use vstd::prelude::*;

use crate::error::{ReError, Result};

verus! {

/// The mathematical model of a wire value.
pub enum WireModel {
    Null,
    Bool(bool),
    Num(int),
    Str(Seq<char>),
    Array(Seq<WireModel>),
}

/// A value as the store's protocol carries it: a string, a number, a boolean,
/// null, or an ordered sequence of wire values.
#[derive(Debug)]
pub enum WireValue {
    Null,
    Bool(bool),
    Int(i64),
    UInt(u64),
    Str(String),
    Array(Vec<WireValue>),
}

impl View for WireValue {
    type V = WireModel;

    open spec fn view(&self) -> WireModel
        decreases self,
    {
        match self {
            WireValue::Null => WireModel::Null,
            WireValue::Bool(b) => WireModel::Bool(*b),
            WireValue::Int(n) => WireModel::Num(*n as int),
            WireValue::UInt(n) => WireModel::Num(*n as int),
            WireValue::Str(s) => WireModel::Str(s@),
            WireValue::Array(v) => WireModel::Array(
                Seq::new(v.len() as nat, |i: int| if 0 <= i < v.len() { v[i].view() } else { WireModel::Null }),
            ),
        }
    }
}


/// The model of an encoded string.
pub open spec fn str_model(s: Seq<char>) -> WireModel {
    WireModel::Str(s)
}

/// The model of an encoded absent-or-present string.
pub open spec fn opt_str_model(o: Option<Seq<char>>) -> WireModel {
    match o {
        Some(s) => WireModel::Str(s),
        None => WireModel::Null,
    }
}

/// The unsigned integer that a wire value decodes to, if any.
pub open spec fn uint_of(m: WireModel) -> Option<int> {
    match m {
        WireModel::Num(n) => if 0 <= n <= usize::MAX { Some(n) } else { None },
        _ => None,
    }
}

/// The signed integer that a wire value decodes to, if any.
pub open spec fn int_of(m: WireModel) -> Option<int> {
    match m {
        WireModel::Num(n) => if i64::MIN <= n <= i64::MAX { Some(n) } else { None },
        _ => None,
    }
}

/// The boolean that a wire value decodes to, if any.
pub open spec fn bool_of(m: WireModel) -> Option<bool> {
    match m {
        WireModel::Bool(b) => Some(b),
        _ => None,
    }
}

/// The string that a wire value decodes to, if any.
pub open spec fn str_of(m: WireModel) -> Option<Seq<char>> {
    match m {
        WireModel::Str(s) => Some(s),
        _ => None,
    }
}

/// What a wire value decodes to as an optional string: `Some(None)` for null,
/// `Some(Some(s))` for a string, `None` for any other shape.
pub open spec fn opt_str_of(m: WireModel) -> Option<Option<Seq<char>>> {
    match m {
        WireModel::Null => Some(None),
        WireModel::Str(s) => Some(Some(s)),
        _ => None,
    }
}

impl WireValue {
    /// Encodes a string.
    pub fn from_str(s: &str) -> (r: WireValue)
        ensures
            r@ == str_model(s@),
    {
        WireValue::Str(s.to_string())
    }

    /// Encodes an owned string.
    pub fn from_string(s: String) -> (r: WireValue)
        ensures
            r@ == str_model(s@),
    {
        WireValue::Str(s)
    }

    /// Encodes an unsigned integer.
    pub fn from_usize(n: usize) -> (r: WireValue)
        ensures
            r@ == WireModel::Num(n as int),
    {
        WireValue::UInt(n as u64)
    }

    /// Encodes an unsigned 64-bit integer.
    pub fn from_u64(n: u64) -> (r: WireValue)
        ensures
            r@ == WireModel::Num(n as int),
    {
        WireValue::UInt(n)
    }

    /// Encodes a signed integer.
    pub fn from_i64(n: i64) -> (r: WireValue)
        ensures
            r@ == WireModel::Num(n as int),
    {
        WireValue::Int(n)
    }

    /// Encodes a boolean.
    pub fn from_bool(b: bool) -> (r: WireValue)
        ensures
            r@ == WireModel::Bool(b),
    {
        WireValue::Bool(b)
    }

    /// Encodes an absent-or-present string; absence becomes null.
    pub fn from_opt_string(o: Option<String>) -> (r: WireValue)
        ensures
            r@ == opt_str_model(
                match o {
                    Some(s) => Some(s@),
                    None => None,
                },
            ),
    {
        match o {
            Some(s) => WireValue::Str(s),
            None => WireValue::Null,
        }
    }

    /// Decodes an unsigned integer; any other shape, or a number out of range,
    /// is a decode error.
    pub fn to_usize(&self) -> (r: Result<usize>)
        ensures
            match uint_of(self@) {
                Some(n) => r == Ok::<usize, ReError>(n as usize),
                None => r == Err::<usize, ReError>(ReError::Decode),
            },
    {
        match self {
            WireValue::UInt(n) => {
                if *n <= usize::MAX as u64 {
                    Ok(*n as usize)
                } else {
                    Err(ReError::Decode)
                }
            },
            WireValue::Int(n) => {
                if 0 <= *n && (*n as u64) <= usize::MAX as u64 {
                    Ok(*n as usize)
                } else {
                    Err(ReError::Decode)
                }
            },
            _ => Err(ReError::Decode),
        }
    }

    /// Decodes a signed integer; any other shape, or a number out of range,
    /// is a decode error.
    pub fn to_i64(&self) -> (r: Result<i64>)
        ensures
            match int_of(self@) {
                Some(n) => r == Ok::<i64, ReError>(n as i64),
                None => r == Err::<i64, ReError>(ReError::Decode),
            },
    {
        match self {
            WireValue::Int(n) => Ok(*n),
            WireValue::UInt(n) => {
                if *n <= i64::MAX as u64 {
                    Ok(*n as i64)
                } else {
                    Err(ReError::Decode)
                }
            },
            _ => Err(ReError::Decode),
        }
    }

    /// Decodes a boolean.
    pub fn to_bool(&self) -> (r: Result<bool>)
        ensures
            match bool_of(self@) {
                Some(b) => r == Ok::<bool, ReError>(b),
                None => r == Err::<bool, ReError>(ReError::Decode),
            },
    {
        match self {
            WireValue::Bool(b) => Ok(*b),
            _ => Err(ReError::Decode),
        }
    }

    /// Decodes a string.
    pub fn to_string_value(&self) -> (r: Result<String>)
        ensures
            match str_of(self@) {
                Some(s) => r.is_ok() && r.unwrap()@ == s,
                None => r == Err::<String, ReError>(ReError::Decode),
            },
    {
        match self {
            WireValue::Str(s) => Ok(s.clone()),
            _ => Err(ReError::Decode),
        }
    }

    /// Decodes an absent-or-present string: null is absence, not an error.
    pub fn to_opt_string(&self) -> (r: Result<Option<String>>)
        ensures
            match opt_str_of(self@) {
                Some(None) => r == Ok::<Option<String>, ReError>(None),
                Some(Some(s)) => r.is_ok() && r.unwrap().is_some() && r.unwrap().unwrap()@ == s,
                None => r == Err::<Option<String>, ReError>(ReError::Decode),
            },
    {
        match self {
            WireValue::Null => Ok(None),
            WireValue::Str(s) => Ok(Some(s.clone())),
            _ => Err(ReError::Decode),
        }
    }
}

/// Encoding an unsigned integer and decoding it gives it back.
pub proof fn lemma_round_trip_usize(n: usize)
    ensures
        uint_of(WireModel::Num(n as int)) == Some(n as int),
{
}

/// Encoding a signed integer and decoding it gives it back.
pub proof fn lemma_round_trip_i64(n: i64)
    ensures
        int_of(WireModel::Num(n as int)) == Some(n as int),
{
}

/// Encoding a boolean and decoding it gives it back.
pub proof fn lemma_round_trip_bool(b: bool)
    ensures
        bool_of(WireModel::Bool(b)) == Some(b),
{
}

/// Encoding a string and decoding it gives it back.
pub proof fn lemma_round_trip_str(s: Seq<char>)
    ensures
        str_of(str_model(s)) == Some(s),
{
}

/// Encoding an absent-or-present string and decoding it gives it back; in
/// particular absence decodes to absence, not to an error or an empty string.
pub proof fn lemma_round_trip_opt_str(o: Option<Seq<char>>)
    ensures
        opt_str_of(opt_str_model(o)) == Some(o),
        o is None ==> opt_str_of(opt_str_model(o)) != Some(Some(Seq::<char>::empty())),
{
}

} // verus!
