//! Frequency counts over optional categorical values.
use vstd::prelude::*;

use crate::records::Line;
use crate::text::str_eq;

verus! {

/// A value that can be counted: it has a model, and two values fall into
/// the same bucket when their models agree.
pub trait Category: Sized {
    type Model;

    spec fn model(&self) -> Self::Model;

    fn same(&self, o: &Self) -> (r: bool)
        ensures
            r == (self.model() == o.model()),
    ;
}

impl Category for String {
    type Model = Seq<char>;

    open spec fn model(&self) -> Seq<char> {
        self@
    }

    fn same(&self, o: &Self) -> (r: bool) {
        str_eq(self.as_str(), o.as_str())
    }
}

impl Category for Line {
    type Model = (Seq<char>, i64, Seq<char>, Seq<char>, Seq<char>);

    open spec fn model(&self) -> (Seq<char>, i64, Seq<char>, Seq<char>, Seq<char>) {
        (self.color@, self.id, self.name@, self.stroke@, self.text_color@)
    }

    fn same(&self, o: &Self) -> (r: bool) {
        self.id == o.id && str_eq(self.color.as_str(), o.color.as_str()) && str_eq(
            self.name.as_str(),
            o.name.as_str(),
        ) && str_eq(self.stroke.as_str(), o.stroke.as_str()) && str_eq(
            self.text_color.as_str(),
            o.text_color.as_str(),
        )
    }
}

/// The bucket of an optional value; all absent values share one.
pub open spec fn bucket<K: Category>(k: Option<K>) -> Option<K::Model> {
    match k {
        Some(v) => Some(v.model()),
        None => None,
    }
}

fn same_bucket<K: Category>(a: &Option<K>, b: &Option<K>) -> (r: bool)
    ensures
        r == (bucket(*a) == bucket(*b)),
{
    match (a, b) {
        (Some(x), Some(y)) => x.same(y),
        (None, None) => true,
        _ => false,
    }
}

/// The count of the first entry at or after `i` in bucket `k`.
pub open spec fn count_from<K: Category>(
    es: Seq<(Option<K>, usize)>,
    k: Option<K::Model>,
    i: int,
) -> nat
    decreases es.len() - i,
{
    if i < 0 || i >= es.len() {
        0
    } else if bucket(es[i].0) == k {
        es[i].1 as nat
    } else {
        count_from(es, k, i + 1)
    }
}

/// How often each bucket was seen.
#[derive(Debug)]
pub struct Counter<K> {
    pub entries: Vec<(Option<K>, usize)>,
}

proof fn lemma_count_update<K: Category>(
    a: Seq<(Option<K>, usize)>,
    b: Seq<(Option<K>, usize)>,
    j: int,
    k: Option<K::Model>,
    i: int,
)
    requires
        a.len() == b.len(),
        0 <= j < a.len(),
        0 <= i,
        forall|m: int| 0 <= m < a.len() && m != j ==> #[trigger] b[m] == a[m],
        bucket(b[j].0) == bucket(a[j].0),
        forall|m: int| 0 <= m < j ==> bucket(#[trigger] a[m].0) != bucket(a[j].0),
    ensures
        count_from(b, k, i) == if k == bucket(a[j].0) && i <= j {
            b[j].1 as nat
        } else {
            count_from(a, k, i)
        },
    decreases a.len() - i,
{
    if i < a.len() {
        lemma_count_update(a, b, j, k, i + 1);
    }
}

proof fn lemma_count_push<K: Category>(a: Seq<(Option<K>, usize)>, e: (Option<K>, usize), k: Option<K::Model>, i: int)
    requires
        0 <= i <= a.len(),
    ensures
        count_from(a.push(e), k, i) == if count_from(a, k, i) == 0 && bucket(e.0) == k && (forall|m: int| i <= m < a.len() ==> bucket(#[trigger] a[m].0) != k) {
            e.1 as nat
        } else {
            count_from(a, k, i)
        },
    decreases a.len() - i,
{
    assert(a.push(e)[a.len() as int] == e);
    if i < a.len() {
        assert(a.push(e)[i] == a[i]);
        lemma_count_push(a, e, k, i + 1);
    }
}

proof fn lemma_count_absent<K: Category>(a: Seq<(Option<K>, usize)>, k: Option<K::Model>, i: int)
    requires
        0 <= i,
        forall|m: int| i <= m < a.len() ==> bucket(#[trigger] a[m].0) != k,
    ensures
        count_from(a, k, i) == 0,
    decreases a.len() - i,
{
    if i < a.len() {
        lemma_count_absent(a, k, i + 1);
    }
}

impl<K: Category> Counter<K> {
    /// How often bucket `k` was seen.
    pub open spec fn count(&self, k: Option<K::Model>) -> nat {
        count_from(self.entries@, k, 0)
    }

    /// How often the bucket of `key` was seen.
    pub fn get(&self, key: &Option<K>) -> (r: usize)
        ensures
            r == self.count(bucket(*key)),
    {
        let mut i: usize = 0;
        while i < self.entries.len()
            invariant
                0 <= i <= self.entries@.len(),
                self.count(bucket(*key)) == count_from(self.entries@, bucket(*key), i as int),
            decreases self.entries@.len() - i,
        {
            if same_bucket(&self.entries[i].0, key) {
                return self.entries[i].1;
            }
            i = i + 1;
        }
        0
    }

    pub fn new() -> (c: Counter<K>)
        ensures
            forall|k: Option<K::Model>| #[trigger] c.count(k) == 0,
    {
        Counter { entries: Vec::new() }
    }

    /// Counts one more value in the bucket of `key`; returns the new count
    /// when the bucket was seen before.
    pub fn insert(&mut self, key: Option<K>) -> (r: Option<usize>)
        requires
            old(self).count(bucket(key)) < usize::MAX,
        ensures
            forall|k: Option<K::Model>| #[trigger]
                final(self).count(k) == if k == bucket(key) {
                    old(self).count(k) + 1
                } else {
                    old(self).count(k)
                },
            r == if old(self).count(bucket(key)) > 0 {
                Some((old(self).count(bucket(key)) + 1) as usize)
            } else {
                None::<usize>
            },
    {
        let ghost before = self.entries@;
        let ghost kb = bucket(key);
        let mut i: usize = 0;
        while i < self.entries.len()
            invariant
                self.entries@ == before,
                old(self).entries@ == before,
                kb == bucket(key),
                0 <= i <= before.len(),
                count_from(before, kb, 0) == count_from(before, kb, i as int),
                forall|m: int| 0 <= m < i ==> bucket(#[trigger] before[m].0) != kb,
                count_from(before, kb, 0) < usize::MAX,
            decreases before.len() - i,
        {
            if same_bucket(&self.entries[i].0, &key) {
                let n = self.entries[i].1;
                assert(n == count_from(before, kb, 0));
                if n == 0 {
                    self.entries.set(i, (key, 1));
                } else {
                    self.entries.set(i, (key, n + 1));
                }
                proof {
                    assert forall|k: Option<K::Model>| #[trigger]
                        self.count(k) == if k == kb {
                            old(self).count(k) + 1
                        } else {
                            old(self).count(k)
                        } by {
                        lemma_count_update(before, self.entries@, i as int, k, 0);
                    }
                }
                return if n == 0 {
                    None
                } else {
                    Some(n + 1)
                };
            }
            i = i + 1;
        }
        proof {
            lemma_count_absent(before, kb, 0);
        }
        self.entries.push((key, 1));
        proof {
            assert forall|k: Option<K::Model>| #[trigger]
                self.count(k) == if k == kb {
                    old(self).count(k) + 1
                } else {
                    old(self).count(k)
                } by {
                lemma_count_push(before, (key, 1usize), k, 0);
            }
        }
        None
    }
}

} // verus!
