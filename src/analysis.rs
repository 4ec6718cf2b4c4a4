//! The offline pass over the log: decode each document, count the trains'
//! categorical fields and collect the vehicles' timelines.
use vstd::prelude::*;

use crate::codec::{
    accepted, decode_checked, geometry_refused, lemma_round_trip, message_is, ParseError,
};
use crate::counter::{bucket, Counter};
use crate::fields::{err_of, AnalysisError};
use crate::history::Trains;
use crate::json::Json;
use crate::records::{record_of, train_of, Line, Record, Train};
use crate::response_messages::{Content, ResponseMessage};

verus! {

/// What became of one document.
#[derive(Debug, PartialEq, Eq)]
pub enum Ingested {
    /// Not a feed message; nothing changed.
    Malformed(ParseError),
    /// A message with another payload than a trajectory; nothing changed.
    Skipped,
    /// A trajectory: why the train or the record could not be read, if so.
    Trajectory { train: Option<AnalysisError>, record: Option<AnalysisError> },
}

/// Statistics and timelines gathered so far.
pub struct Analysis {
    pub trains: usize,
    pub delays: Counter<String>,
    pub states: Counter<String>,
    pub ride_states: Counter<String>,
    pub original_lines: Counter<String>,
    pub lines: Counter<Line>,
    pub history: Trains,
}

/// The counts of `b` are those of `a`.
pub open spec fn same_counts(a: Analysis, b: Analysis) -> bool {
    &&& b.trains == a.trains
    &&& forall|k: Option<Seq<char>>| #[trigger] b.delays.count(k) == a.delays.count(k)
    &&& forall|k: Option<Seq<char>>| #[trigger] b.states.count(k) == a.states.count(k)
    &&& forall|k: Option<Seq<char>>| #[trigger] b.ride_states.count(k) == a.ride_states.count(k)
    &&& forall|k: Option<Seq<char>>| #[trigger]
        b.original_lines.count(k) == a.original_lines.count(k)
    &&& forall|k| #[trigger] b.lines.count(k) == a.lines.count(k)
}

/// One more value in bucket `v` than `a` has.
pub open spec fn one_more<K: crate::counter::Category>(
    a: Counter<K>,
    b: Counter<K>,
    v: Option<K>,
) -> bool {
    forall|k| #[trigger]
        b.count(k) == if k == bucket(v) {
            a.count(k) + 1
        } else {
            a.count(k)
        }
}

/// `b` has counted train `t` on top of `a`.
pub open spec fn counted(a: Analysis, b: Analysis, t: Train) -> bool {
    &&& b.trains == a.trains + 1
    &&& one_more(a.delays, b.delays, t.delay)
    &&& one_more(a.states, b.states, t.state)
    &&& one_more(a.ride_states, b.ride_states, t.ride_state)
    &&& one_more(a.original_lines, b.original_lines, t.original_line)
    &&& one_more(a.lines, b.lines, t.line)
}

/// The timelines of `b` are those of `a`.
pub open spec fn same_timelines(a: Trains, b: Trains) -> bool {
    forall|id: Seq<char>| #[trigger] b.timeline(id) == a.timeline(id)
}

/// `b` has `r` appended to the timeline of its vehicle in `a`.
pub open spec fn appended(a: Trains, b: Trains, r: Record) -> bool {
    forall|id: Seq<char>| #[trigger]
        b.timeline(id) == if id == r.vehicle_number@ {
            a.timeline(id).push(r)
        } else {
            a.timeline(id)
        }
}

/// What ingesting message `m` does to `a`, giving `b`.
pub open spec fn ingested(a: Analysis, b: Analysis, m: ResponseMessage) -> bool {
    if m.content is TrajectorySchematic {
        &&& match train_of(m.content) {
            Ok(t) => counted(a, b, t),
            Err(_) => same_counts(a, b),
        }
        &&& match record_of(m) {
            Ok(r) => appended(a.history, b.history, r),
            Err(_) => same_timelines(a.history, b.history),
        }
    } else {
        same_counts(a, b) && same_timelines(a.history, b.history)
    }
}

/// What ingesting message `m` reports.
pub open spec fn report_of(m: ResponseMessage) -> Ingested {
    if m.content is TrajectorySchematic {
        Ingested::Trajectory { train: err_of(train_of(m.content)), record: err_of(record_of(m)) }
    } else {
        Ingested::Skipped
    }
}

impl Analysis {
    /// The history is well formed and no bucket has counted more values than
    /// there were trains.
    pub open spec fn wf(&self) -> bool {
        &&& self.history.wf()
        &&& forall|k: Option<Seq<char>>| #[trigger] self.delays.count(k) <= self.trains
        &&& forall|k: Option<Seq<char>>| #[trigger] self.states.count(k) <= self.trains
        &&& forall|k: Option<Seq<char>>| #[trigger] self.ride_states.count(k) <= self.trains
        &&& forall|k: Option<Seq<char>>| #[trigger] self.original_lines.count(k) <= self.trains
        &&& forall|k| #[trigger] self.lines.count(k) <= self.trains
    }

    pub fn new() -> (a: Analysis)
        ensures
            a.wf(),
            a.trains == 0,
            forall|id: Seq<char>| #[trigger] a.history.timeline(id) == Seq::<Record>::empty(),
    {
        Analysis {
            trains: 0,
            delays: Counter::new(),
            states: Counter::new(),
            ride_states: Counter::new(),
            original_lines: Counter::new(),
            lines: Counter::new(),
            history: Trains::new(),
        }
    }

    fn count_train(&mut self, t: Train)
        requires
            old(self).wf(),
            old(self).trains < usize::MAX,
        ensures
            final(self).wf(),
            counted(*old(self), *final(self), t),
            final(self).history == old(self).history,
    {
        self.trains = self.trains + 1;
        self.delays.insert(t.delay);
        self.states.insert(t.state);
        self.ride_states.insert(t.ride_state);
        self.original_lines.insert(t.original_line);
        self.lines.insert(t.line);
    }

    /// Takes in one document of the log, with whether its payload parsed as
    /// GeoJSON. A document that is no feed message changes nothing; a trajectory is counted and recorded independently,
    /// so that a failure of one leaves the other to go on.
    pub fn ingest(&mut self, doc: Json, payload_is_geojson: bool) -> (r: Ingested)
        requires
            old(self).wf(),
            old(self).trains < usize::MAX,
        ensures
            final(self).wf(),
            !accepted(doc, payload_is_geojson) ==> r is Malformed && same_counts(
                *old(self),
                *final(self),
            ) && same_timelines(old(self).history, final(self).history),
            forall|m: ResponseMessage|
                message_is(doc, m) && !geometry_refused(doc, payload_is_geojson) ==> #[trigger]
                    ingested(*old(self), *final(self), m) && r == report_of(m),
    {
        let ghost d = doc;
        let m = match decode_checked(doc, payload_is_geojson) {
            Ok(m) => m,
            Err(e) => {
                proof {
                    assert forall|m2: ResponseMessage|
                        #[trigger] message_is(d, m2) && !geometry_refused(
                            d,
                            payload_is_geojson,
                        ) implies false by {
                        lemma_round_trip(d, m2, m2);
                    }
                }
                return Ingested::Malformed(e);
            },
        };
        proof {
            lemma_round_trip(d, m, m);
        }
        let is_trajectory = match &m.content {
            Content::TrajectorySchematic(_) => true,
            _ => false,
        };
        if !is_trajectory {
            proof {
                assert forall|m2: ResponseMessage| message_is(d, m2) implies #[trigger] ingested(
                    *old(self),
                    *self,
                    m2,
                ) && Ingested::Skipped == report_of(m2) by {
                    lemma_round_trip(d, m, m2);
                }
            }
            return Ingested::Skipped;
        }
        let ghost gm = m;
        let record = match Record::try_from(&m) {
            Ok(rec) => {
                self.history.insert(rec);
                None
            },
            Err(e) => Some(e),
        };
        assert(same_counts(*old(self), *self));
        let train = match Train::try_from(m.content) {
            Ok(t) => {
                self.count_train(t);
                None
            },
            Err(e) => Some(e),
        };
        proof {
            assert forall|m2: ResponseMessage| message_is(d, m2) implies #[trigger] ingested(
                *old(self),
                *self,
                m2,
            ) && (Ingested::Trajectory { train, record }) == report_of(m2) by {
                lemma_round_trip(d, gm, m2);
                assert(m2.content == gm.content);
                assert(m2 == gm);
            }
        }
        Ingested::Trajectory { train, record }
    }
}

} // verus!
