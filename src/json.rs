//! A plain model of JSON documents, as handed over by the reader of the log.
use vstd::prelude::*;

use crate::text::str_eq;

verus! {

/// A JSON number: an integer that fits `i64`, or any other number kept as
/// its decimal text.
#[derive(Debug, PartialEq, Eq)]
pub enum Number {
    Int(i64),
    Decimal(String),
}

impl Number {
    pub fn copy(&self) -> (r: Number)
        ensures
            r == *self,
    {
        match self {
            Number::Int(i) => Number::Int(*i),
            Number::Decimal(s) => Number::Decimal(s.clone()),
        }
    }
}

/// A JSON value. Object members keep their order; keys are unique.
#[derive(Debug, PartialEq, Eq)]
pub enum Json {
    Null,
    Bool(bool),
    Num(Number),
    Str(String),
    Array(Vec<Json>),
    Object(Vec<(String, Json)>),
}

/// The kinds of values a decoder expects or meets.
#[derive(Clone, Copy, Debug, PartialEq, Eq, Structural)]
pub enum Kind {
    Null,
    Bool,
    Number,
    Integer,
    Str,
    Array,
    Object,
    Feature,
    Properties,
    Trajectory,
    /// A message payload other than a trajectory.
    OtherContent,
}

pub open spec fn kind_of(j: Json) -> Kind {
    match j {
        Json::Null => Kind::Null,
        Json::Bool(_) => Kind::Bool,
        Json::Num(_) => Kind::Number,
        Json::Str(_) => Kind::Str,
        Json::Array(_) => Kind::Array,
        Json::Object(_) => Kind::Object,
    }
}

pub fn kind(j: &Json) -> (r: Kind)
    ensures
        r == kind_of(*j),
{
    match j {
        Json::Null => Kind::Null,
        Json::Bool(_) => Kind::Bool,
        Json::Num(_) => Kind::Number,
        Json::Str(_) => Kind::Str,
        Json::Array(_) => Kind::Array,
        Json::Object(_) => Kind::Object,
    }
}

/// The value of the first member named `key`, searching from position `i`.
pub open spec fn member_from(fields: Seq<(String, Json)>, key: Seq<char>, i: int) -> Option<Json>
    decreases fields.len() - i,
{
    if i < 0 || i >= fields.len() {
        None
    } else if fields[i].0@ == key {
        Some(fields[i].1)
    } else {
        member_from(fields, key, i + 1)
    }
}

/// The value of the member named `key`, if the object has one.
pub open spec fn member(fields: Seq<(String, Json)>, key: Seq<char>) -> Option<Json> {
    member_from(fields, key, 0)
}

/// Looks up the member named `key`.
pub fn get<'a>(fields: &'a Vec<(String, Json)>, key: &str) -> (r: Option<&'a Json>)
    ensures
        match r {
            Some(v) => member(fields@, key@) == Some(*v),
            None => member(fields@, key@) is None,
        },
{
    let mut i: usize = 0;
    while i < fields.len()
        invariant
            0 <= i <= fields@.len(),
            member(fields@, key@) == member_from(fields@, key@, i as int),
        decreases fields@.len() - i,
    {
        if str_eq(fields[i].0.as_str(), key) {
            return Some(&fields[i].1);
        }
        i = i + 1;
    }
    None
}

/// Finds the position of the member named `key`.
pub fn index_of(fields: &Vec<(String, Json)>, key: &str) -> (r: Option<usize>)
    ensures
        match r {
            Some(i) => i < fields@.len() && fields@[i as int].0@ == key@ && member(fields@, key@)
                == Some(fields@[i as int].1),
            None => member(fields@, key@) is None,
        },
{
    let mut i: usize = 0;
    while i < fields.len()
        invariant
            0 <= i <= fields@.len(),
            member(fields@, key@) == member_from(fields@, key@, i as int),
        decreases fields@.len() - i,
    {
        if str_eq(fields[i].0.as_str(), key) {
            return Some(i);
        }
        i = i + 1;
    }
    None
}

proof fn lemma_member_from_at(f: Seq<(String, Json)>, k: Seq<char>, i: int, j: int)
    requires
        0 <= j <= i < f.len(),
        f[i].0@ == k,
        forall|m: int| 0 <= m < i ==> (#[trigger] f[m]).0@ != k,
    ensures
        member_from(f, k, j) == Some(f[i].1),
    decreases i - j,
{
    if j < i {
        lemma_member_from_at(f, k, i, j + 1);
    }
}

/// The member at `i` is found when no earlier member has its key.
pub proof fn lemma_member_at(f: Seq<(String, Json)>, k: Seq<char>, i: int)
    requires
        0 <= i < f.len(),
        f[i].0@ == k,
        forall|m: int| 0 <= m < i ==> (#[trigger] f[m]).0@ != k,
    ensures
        member(f, k) == Some(f[i].1),
{
    lemma_member_from_at(f, k, i, 0);
}

proof fn lemma_member_from_remove(f: Seq<(String, Json)>, i: int, k: Seq<char>, j: int)
    requires
        0 <= i < f.len(),
        0 <= j <= f.len() - 1,
        f[i].0@ != k,
    ensures
        member_from(f.remove(i), k, j) == if j < i {
            member_from(f, k, j)
        } else {
            member_from(f, k, j + 1)
        },
    decreases f.len() - j,
{
    let g = f.remove(i);
    if j < f.len() - 1 {
        lemma_member_from_remove(f, i, k, j + 1);
    }
    if j < i {
        assert(g[j] == f[j]);
        if j + 1 == i {
            assert(member_from(f, k, i) == member_from(f, k, i + 1));
        }
    } else {
        if j < f.len() - 1 {
            assert(g[j] == f[j + 1]);
        }
    }
}

/// Taking out a member leaves the members of every other key as they were.
pub proof fn lemma_member_remove(f: Seq<(String, Json)>, i: int, k: Seq<char>)
    requires
        0 <= i < f.len(),
        f[i].0@ != k,
    ensures
        member(f.remove(i), k) == member(f, k),
{
    lemma_member_from_remove(f, i, k, 0);
    if i == 0 {
        assert(member_from(f, k, 0) == member_from(f, k, 1));
    }
}

} // verus!
