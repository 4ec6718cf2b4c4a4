//! Typed extraction of the members of a property map.
use vstd::prelude::*;

use crate::color::ColorConversionError;
use crate::json::{get, index_of, kind, kind_of, member, Json, Kind, Number};

verus! {

/// Why a record could not be decoded.
#[derive(Debug, PartialEq, Eq)]
pub enum AnalysisError {
    /// A required member is absent.
    MissingProperty(&'static str),
    /// A payload or a value has the wrong shape: what was expected, what was found.
    IncorrectType(Kind, Kind),
    /// A member has the wrong kind of value: expected kind, the value, its kind.
    IncorrectValueType(Kind, Json, Kind),
    /// An array has the wrong number of items: expected, found.
    MissingItems(usize, usize),
    /// A line colour is malformed.
    Color(ColorConversionError),
}

/// The error of a result, if any.
pub open spec fn err_of<T>(r: Result<T, AnalysisError>) -> Option<AnalysisError> {
    match r {
        Ok(_) => None,
        Err(e) => Some(e),
    }
}

/// A required string member.
pub open spec fn req_str(p: Seq<(String, Json)>, name: &'static str) -> Result<String, AnalysisError> {
    match member(p, name@) {
        None => Err(AnalysisError::MissingProperty(name)),
        Some(Json::Str(s)) => Ok(s),
        Some(v) => Err(AnalysisError::IncorrectValueType(Kind::Str, v, kind_of(v))),
    }
}

/// An optional string member: absent and null give no value.
pub open spec fn opt_str(p: Seq<(String, Json)>, name: &'static str) -> Result<
    Option<String>,
    AnalysisError,
> {
    match member(p, name@) {
        None => Ok(None),
        Some(Json::Null) => Ok(None),
        Some(Json::Str(s)) => Ok(Some(s)),
        Some(v) => Err(AnalysisError::IncorrectValueType(Kind::Str, v, kind_of(v))),
    }
}

/// A required integer member.
pub open spec fn req_int(p: Seq<(String, Json)>, name: &'static str) -> Result<i64, AnalysisError> {
    match member(p, name@) {
        None => Err(AnalysisError::MissingProperty(name)),
        Some(Json::Num(Number::Int(i))) => Ok(i),
        Some(v) => Err(AnalysisError::IncorrectValueType(Kind::Integer, v, kind_of(v))),
    }
}

/// An optional integer member: absent, null and a number that is no `i64`
/// give no value.
pub open spec fn opt_int(p: Seq<(String, Json)>, name: &'static str) -> Result<
    Option<i64>,
    AnalysisError,
> {
    match member(p, name@) {
        None => Ok(None),
        Some(Json::Null) => Ok(None),
        Some(Json::Num(Number::Int(i))) => Ok(Some(i)),
        Some(Json::Num(Number::Decimal(_))) => Ok(None),
        Some(v) => Err(AnalysisError::IncorrectValueType(Kind::Integer, v, kind_of(v))),
    }
}

/// A flag member: anything but a boolean counts as `false`.
pub open spec fn flag(p: Seq<(String, Json)>, name: &'static str) -> bool {
    match member(p, name@) {
        Some(Json::Bool(b)) => b,
        _ => false,
    }
}

/// Takes the member at `i` out as the value of a wrong-kind error.
fn wrong_kind(p: &mut Vec<(String, Json)>, i: usize, expected: Kind) -> (r: AnalysisError)
    requires
        i < old(p)@.len(),
    ensures
        r == AnalysisError::IncorrectValueType(
            expected,
            old(p)@[i as int].1,
            kind_of(old(p)@[i as int].1),
        ),
{
    let (_, v) = p.remove(i);
    let k = kind(&v);
    AnalysisError::IncorrectValueType(expected, v, k)
}

/// Reads a required string member. A wrong-kind value is moved into the
/// error; on success the members are left as they were.
pub fn extract_str(p: &mut Vec<(String, Json)>, name: &'static str) -> (r: Result<
    String,
    AnalysisError,
>)
    ensures
        r == req_str(old(p)@, name),
        r is Ok ==> final(p)@ == old(p)@,
{
    let i = match index_of(p, name) {
        None => return Err(AnalysisError::MissingProperty(name)),
        Some(i) => i,
    };
    match &p[i].1 {
        Json::Str(s) => return Ok(s.clone()),
        _ => {},
    }
    Err(wrong_kind(p, i, Kind::Str))
}

/// Reads an optional string member.
pub fn extract_opt_str(p: &mut Vec<(String, Json)>, name: &'static str) -> (r: Result<
    Option<String>,
    AnalysisError,
>)
    ensures
        r == opt_str(old(p)@, name),
        r is Ok ==> final(p)@ == old(p)@,
{
    let i = match index_of(p, name) {
        None => return Ok(None),
        Some(i) => i,
    };
    match &p[i].1 {
        Json::Null => return Ok(None),
        Json::Str(s) => return Ok(Some(s.clone())),
        _ => {},
    }
    Err(wrong_kind(p, i, Kind::Str))
}

/// Reads a required integer member.
pub fn extract_int(p: &mut Vec<(String, Json)>, name: &'static str) -> (r: Result<
    i64,
    AnalysisError,
>)
    ensures
        r == req_int(old(p)@, name),
        r is Ok ==> final(p)@ == old(p)@,
{
    let i = match index_of(p, name) {
        None => return Err(AnalysisError::MissingProperty(name)),
        Some(i) => i,
    };
    match &p[i].1 {
        Json::Num(Number::Int(v)) => return Ok(*v),
        _ => {},
    }
    Err(wrong_kind(p, i, Kind::Integer))
}

/// Reads an optional integer member.
pub fn extract_opt_int(p: &mut Vec<(String, Json)>, name: &'static str) -> (r: Result<
    Option<i64>,
    AnalysisError,
>)
    ensures
        r == opt_int(old(p)@, name),
        r is Ok ==> final(p)@ == old(p)@,
{
    let i = match index_of(p, name) {
        None => return Ok(None),
        Some(i) => i,
    };
    match &p[i].1 {
        Json::Null => return Ok(None),
        Json::Num(Number::Int(v)) => return Ok(Some(*v)),
        Json::Num(Number::Decimal(_)) => return Ok(None),
        _ => {},
    }
    Err(wrong_kind(p, i, Kind::Integer))
}

pub fn extract_flag(p: &Vec<(String, Json)>, name: &'static str) -> (r: bool)
    ensures
        r == flag(p@, name),
{
    match get(p, name) {
        Some(Json::Bool(b)) => *b,
        _ => false,
    }
}

} // verus!
