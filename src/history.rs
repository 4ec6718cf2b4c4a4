//! Per-vehicle timelines and frame-indexed replay.
use vstd::prelude::*;

use crate::color::Rgb;
use crate::records::{Coordinate, Record};
use vstd::hash_map::StringHashMap;

verus! {

/// What replay draws for one vehicle in one frame.
#[derive(Debug)]
pub struct Dot {
    pub vehicle: String,
    pub position: Coordinate,
    pub color: Rgb,
}

/// The dot that a record is drawn as.
pub open spec fn dot_of(r: Record) -> Dot {
    Dot { vehicle: r.vehicle_number, position: r.position, color: r.line_color }
}

fn dot(r: &Record) -> (d: Dot)
    ensures
        d == dot_of(*r),
{
    Dot { vehicle: r.vehicle_number.clone(), position: r.position.copy(), color: r.line_color }
}

/// One vehicle and its records in arrival order.
#[derive(Debug)]
pub struct Vehicle {
    pub number: String,
    pub records: Vec<Record>,
}

impl Vehicle {
    /// Every record belongs to this vehicle, and there is at least one.
    pub open spec fn wf(&self) -> bool {
        &&& self.records@.len() > 0
        &&& forall|j: int|
            0 <= j < self.records@.len() ==> #[trigger] self.records@[j].vehicle_number@
                == self.number@
    }

    /// Starts the timeline of the vehicle that `r` belongs to.
    pub fn from_record(r: Record) -> (v: Vehicle)
        ensures
            v.number@ == r.vehicle_number@,
            v.records@ == seq![r],
            v.wf(),
    {
        let number = r.vehicle_number.clone();
        Vehicle { number, records: vec![r] }
    }

    /// Appends a record to the end of the timeline.
    pub fn update(&mut self, r: Record)
        ensures
            final(self).number == old(self).number,
            final(self).records@ == old(self).records@.push(r),
    {
        self.records.push(r);
    }

    /// The dot of the record at `idx`, if the timeline is that long.
    pub fn render(&self, idx: usize) -> (d: Option<Dot>)
        ensures
            d == (if idx < self.records@.len() {
                Some(dot_of(self.records@[idx as int]))
            } else {
                None
            }),
    {
        if idx < self.records.len() {
            Some(dot(&self.records[idx]))
        } else {
            None
        }
    }
}

/// The first position at or after `i` of the vehicle numbered `id`.
pub open spec fn find_from(vs: Seq<Vehicle>, id: Seq<char>, i: int) -> Option<int>
    decreases vs.len() - i,
{
    if i < 0 || i >= vs.len() {
        None
    } else if vs[i].number@ == id {
        Some(i)
    } else {
        find_from(vs, id, i + 1)
    }
}

/// The dots of the first `n` vehicles at frame `idx`, in vehicle order.
pub open spec fn frame_upto(vs: Seq<Vehicle>, idx: int, n: int) -> Seq<Dot>
    decreases n,
{
    if n <= 0 {
        Seq::empty()
    } else {
        let prev = frame_upto(vs, idx, n - 1);
        let v = vs[n - 1];
        if idx < v.records@.len() {
            prev.push(dot_of(v.records@[idx]))
        } else {
            prev
        }
    }
}

proof fn lemma_find_same_numbers(a: Seq<Vehicle>, b: Seq<Vehicle>, id: Seq<char>, i: int)
    requires
        a.len() == b.len(),
        forall|k: int| 0 <= k < a.len() ==> #[trigger] a[k].number@ == b[k].number@,
    ensures
        find_from(a, id, i) == find_from(b, id, i),
    decreases a.len() - i,
{
    if 0 <= i < a.len() {
        lemma_find_same_numbers(a, b, id, i + 1);
    }
}

proof fn lemma_find_push(a: Seq<Vehicle>, v: Vehicle, id: Seq<char>, i: int)
    requires
        0 <= i <= a.len(),
    ensures
        find_from(a.push(v), id, i) == (match find_from(a, id, i) {
            Some(k) => Some(k),
            None => if v.number@ == id {
                Some(a.len() as int)
            } else {
                None
            },
        }),
    decreases a.len() - i,
{
    assert(a.push(v)[a.len() as int] == v);
    if i < a.len() {
        assert(a.push(v)[i] == a[i]);
        lemma_find_push(a, v, id, i + 1);
    }
}

proof fn lemma_find_found(a: Seq<Vehicle>, id: Seq<char>, i: int)
    requires
        0 <= i,
    ensures
        find_from(a, id, i) matches Some(k) ==> i <= k < a.len() && a[k].number@ == id,
        find_from(a, id, i) is None ==> forall|k: int| i <= k < a.len() ==> a[k].number@ != id,
    decreases a.len() - i,
{
    if i < a.len() {
        lemma_find_found(a, id, i + 1);
    }
}

/// All vehicles seen so far, each with its timeline, and where each vehicle
/// number stands among them.
pub struct Trains {
    pub vehicles: Vec<Vehicle>,
    pub index: StringHashMap<usize>,
}

proof fn lemma_find_index(vs: Seq<Vehicle>, index: Map<Seq<char>, usize>, id: Seq<char>)
    requires
        forall|k: int, l: int|
            0 <= k < l < vs.len() ==> #[trigger] vs[k].number@ != #[trigger] vs[l].number@,
        forall|x: Seq<char>|
            #[trigger] index.contains_key(x) ==> index[x] < vs.len() && vs[index[x] as int].number@
                == x,
        forall|k: int| 0 <= k < vs.len() ==> index.contains_key(#[trigger] vs[k].number@),
    ensures
        find_from(vs, id, 0) == if index.contains_key(id) {
            Some(index[id] as int)
        } else {
            None
        },
{
    lemma_find_found(vs, id, 0);
    if index.contains_key(id) {
        let k = index[id] as int;
        if let Some(j) = find_from(vs, id, 0) {
            if j < k {
                assert(vs[j].number@ != vs[k].number@);
            } else if k < j {
                assert(vs[k].number@ != vs[j].number@);
            }
        } else {
            assert(vs[k].number@ == id);
        }
    } else {
        if let Some(j) = find_from(vs, id, 0) {
            assert(index.contains_key(vs[j].number@));
        }
    }
}

impl Trains {
    /// Each vehicle is well formed, no number occurs twice, and the index
    /// gives the position of each number.
    pub open spec fn wf(&self) -> bool {
        &&& forall|k: int| 0 <= k < self.vehicles@.len() ==> (#[trigger] self.vehicles@[k]).wf()
        &&& forall|k: int, l: int|
            0 <= k < l < self.vehicles@.len() ==> #[trigger] self.vehicles@[k].number@
                != #[trigger] self.vehicles@[l].number@
        &&& forall|x: Seq<char>| #[trigger]
            self.index@.contains_key(x) ==> self.index@[x] < self.vehicles@.len()
                && self.vehicles@[self.index@[x] as int].number@ == x
        &&& forall|k: int|
            0 <= k < self.vehicles@.len() ==> self.index@.contains_key(
                #[trigger] self.vehicles@[k].number@,
            )
    }

    /// The records of vehicle `id` in arrival order; empty for a vehicle not seen.
    pub open spec fn timeline(&self, id: Seq<char>) -> Seq<Record> {
        match find_from(self.vehicles@, id, 0) {
            Some(k) => self.vehicles@[k].records@,
            None => Seq::empty(),
        }
    }

    pub fn new() -> (t: Trains)
        ensures
            t.wf(),
            forall|id: Seq<char>| #[trigger] t.timeline(id) == Seq::<Record>::empty(),
    {
        Trains { vehicles: Vec::new(), index: StringHashMap::new() }
    }

    /// Appends `r` to the timeline of its vehicle, starting one if needed.
    pub fn insert(&mut self, r: Record)
        requires
            old(self).wf(),
        ensures
            final(self).wf(),
            forall|id: Seq<char>| #[trigger]
                final(self).timeline(id) == if id == r.vehicle_number@ {
                    old(self).timeline(id).push(r)
                } else {
                    old(self).timeline(id)
                },
    {
        let ghost id = r.vehicle_number@;
        let ghost before = self.vehicles@;
        let ghost idx = self.index@;
        proof {
            assert forall|x: Seq<char>| true implies #[trigger] find_from(before, x, 0) == if idx.contains_key(x) {
                Some(idx[x] as int)
            } else {
                None
            } by {
                lemma_find_index(before, idx, x);
            }
        }
        match self.index.get(r.vehicle_number.as_str()) {
            Some(k) => {
                let i = *k;
                self.vehicles[i].update(r);
                proof {
                    let after = self.vehicles@;
                    assert forall|k: int| 0 <= k < before.len() implies #[trigger]
                        before[k].number@ == after[k].number@ by {}
                    assert forall|x: Seq<char>| true implies #[trigger] find_from(after, x, 0)
                        == find_from(before, x, 0) by {
                        lemma_find_same_numbers(after, before, x, 0);
                    }
                    assert(after[i as int].wf()) by {
                        assert forall|j: int| 0 <= j < after[i as int].records@.len() implies
                            #[trigger] after[i as int].records@[j].vehicle_number@
                            == after[i as int].number@ by {
                            if j < before[i as int].records@.len() {
                                assert(before[i as int].wf());
                            }
                        }
                    }
                    assert forall|k: int| 0 <= k < after.len() implies (#[trigger] after[k]).wf() by {
                        if k != i {
                            assert(before[k].wf());
                        }
                    }
                    assert forall|k: int| 0 <= k < after.len() implies idx.contains_key(
                        #[trigger] after[k].number@,
                    ) by {
                        assert(before[k].number@ == after[k].number@);
                    }
                }
            },
            None => {
                let n = self.vehicles.len();
                let number = r.vehicle_number.clone();
                let v = Vehicle::from_record(r);
                self.vehicles.push(v);
                self.index.insert(number, n);
                proof {
                    let after = self.vehicles@;
                    assert forall|x: Seq<char>| true implies #[trigger] find_from(after, x, 0)
                        == (match find_from(before, x, 0) {
                        Some(k) => Some(k),
                        None => if x == id {
                            Some(before.len() as int)
                        } else {
                            None
                        },
                    }) by {
                        lemma_find_push(before, v, x, 0);
                    }
                    assert forall|k: int| 0 <= k < after.len() implies (#[trigger] after[k]).wf() by {
                        if k < before.len() {
                            assert(before[k].wf());
                            assert(after[k] == before[k]);
                        }
                    }
                    assert forall|k: int, l: int|
                        0 <= k < l < after.len() implies #[trigger] after[k].number@
                            != #[trigger] after[l].number@ by {
                        if l == before.len() {
                            assert(after[k] == before[k]);
                            assert(idx.contains_key(before[k].number@));
                        } else {
                            assert(after[k] == before[k] && after[l] == before[l]);
                        }
                    }
                    assert forall|x: Seq<char>| #[trigger]
                        self.index@.contains_key(x) implies self.index@[x] < after.len()
                            && after[self.index@[x] as int].number@ == x by {
                        if x != id {
                            assert(after[idx[x] as int] == before[idx[x] as int]);
                        }
                    }
                    assert forall|k: int| 0 <= k < after.len() implies self.index@.contains_key(
                        #[trigger] after[k].number@,
                    ) by {
                        if k < before.len() {
                            assert(after[k] == before[k]);
                        }
                    }
                }
            },
        }
    }

    /// The length of the longest timeline: the number of frames a replay
    /// needs to show every record.
    pub fn longest(&self) -> (r: usize)
        ensures
            forall|k: int|
                0 <= k < self.vehicles@.len() ==> #[trigger] self.vehicles@[k].records@.len() <= r,
            self.vehicles@.len() == 0 ==> r == 0,
            self.vehicles@.len() > 0 ==> exists|k: int|
                0 <= k < self.vehicles@.len() && #[trigger] self.vehicles@[k].records@.len() == r,
    {
        let mut best: usize = 0;
        let mut i: usize = 0;
        while i < self.vehicles.len()
            invariant
                0 <= i <= self.vehicles@.len(),
                forall|k: int| 0 <= k < i ==> #[trigger] self.vehicles@[k].records@.len() <= best,
                i == 0 ==> best == 0,
                i > 0 ==> exists|k: int| 0 <= k < i && #[trigger] self.vehicles@[k].records@.len() == best,
            decreases self.vehicles@.len() - i,
        {
            let n = self.vehicles[i].records.len();
            if i == 0 || n > best {
                best = n;
            }
            i = i + 1;
        }
        best
    }

    /// The dots of frame `idx`: one for each vehicle whose timeline reaches it.
    pub fn render(&self, idx: usize) -> (r: Vec<Dot>)
        ensures
            r@ == frame_upto(self.vehicles@, idx as int, self.vehicles@.len() as int),
    {
        let mut out: Vec<Dot> = Vec::new();
        let mut i: usize = 0;
        while i < self.vehicles.len()
            invariant
                0 <= i <= self.vehicles@.len(),
                out@ == frame_upto(self.vehicles@, idx as int, i as int),
            decreases self.vehicles@.len() - i,
        {
            match self.vehicles[i].render(idx) {
                Some(d) => out.push(d),
                None => {},
            }
            i = i + 1;
        }
        out
    }
}

/// The dots of vehicle `id` among `ds`, in order.
pub open spec fn dots_for(ds: Seq<Dot>, id: Seq<char>) -> Seq<Dot>
    decreases ds.len(),
{
    if ds.len() == 0 {
        Seq::empty()
    } else {
        let prev = dots_for(ds.drop_last(), id);
        if ds.last().vehicle@ == id {
            prev.push(ds.last())
        } else {
            prev
        }
    }
}

proof fn lemma_frame_dots(t: Trains, id: Seq<char>, idx: int, n: int)
    requires
        t.wf(),
        0 <= n <= t.vehicles@.len(),
        0 <= idx,
    ensures
        dots_for(frame_upto(t.vehicles@, idx, n), id) == match find_from(t.vehicles@, id, 0) {
            Some(k) => if k < n && idx < t.vehicles@[k].records@.len() {
                seq![dot_of(t.vehicles@[k].records@[idx])]
            } else {
                Seq::empty()
            },
            None => Seq::empty(),
        },
    decreases n,
{
    let vs = t.vehicles@;
    lemma_find_found(vs, id, 0);
    if n > 0 {
        lemma_frame_dots(t, id, idx, n - 1);
        let prev = frame_upto(vs, idx, n - 1);
        let v = vs[n - 1];
        assert(v.wf());
        if idx < v.records@.len() {
            let d = dot_of(v.records@[idx]);
            assert(prev.push(d).drop_last() == prev);
            assert(d.vehicle@ == v.number@);
            if v.number@ == id {
                if let Some(k) = find_from(vs, id, 0) {
                    if k != n - 1 {
                        if k < n - 1 {
                            assert(vs[k].number@ != vs[n - 1].number@);
                        } else {
                            assert(vs[n - 1].number@ != vs[k].number@);
                        }
                    }
                }
            }
        }
    }
}

/// Replay shows each vehicle's timeline frame by frame: at frame `idx` the
/// frame holds exactly one dot of vehicle `id`, drawn from its record at
/// `idx`, when the timeline is that long, and none otherwise.
pub proof fn lemma_replay_frame(t: Trains, id: Seq<char>, idx: int)
    requires
        t.wf(),
        0 <= idx,
    ensures
        dots_for(frame_upto(t.vehicles@, idx, t.vehicles@.len() as int), id) == if idx
            < t.timeline(id).len() {
            seq![dot_of(t.timeline(id)[idx])]
        } else {
            Seq::<Dot>::empty()
        },
{
    lemma_frame_dots(t, id, idx, t.vehicles@.len() as int);
    lemma_find_found(t.vehicles@, id, 0);
}

/// Records of one vehicle inserted one after the other form its timeline,
/// in arrival order. `states[i + 1]` is `states[i]` after inserting `rs[i]`,
/// as `Trains::insert` ensures.
pub proof fn lemma_arrival_order(states: Seq<Trains>, rs: Seq<Record>, id: Seq<char>)
    requires
        states.len() == rs.len() + 1,
        states[0].timeline(id) == Seq::<Record>::empty(),
        forall|i: int| 0 <= i < rs.len() ==> (#[trigger] rs[i]).vehicle_number@ == id,
        forall|i: int, x: Seq<char>|
            0 <= i < rs.len() ==> #[trigger] states[i + 1].timeline(x) == if x
                == rs[i].vehicle_number@ {
                states[i].timeline(x).push(rs[i])
            } else {
                states[i].timeline(x)
            },
    ensures
        states[rs.len() as int].timeline(id) == rs,
    decreases rs.len(),
{
    if rs.len() > 0 {
        let n = rs.len() - 1;
        lemma_arrival_order(states.take(n + 1), rs.take(n), id);
        assert(states.take(n + 1)[n] == states[n]);
        assert(states[n + 1].timeline(id) == states[n].timeline(id).push(rs[n]));
        assert(rs.take(n).push(rs[n]) =~= rs);
    }
}

} // verus!
