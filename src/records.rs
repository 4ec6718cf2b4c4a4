//! Domain records decoded from trajectory features.
use vstd::prelude::*;

use crate::color::{color_of, try_color_from_string, Rgb};
use crate::fields::{
    err_of, extract_flag, extract_int, extract_opt_int, extract_opt_str, extract_str, flag,
    opt_int, opt_str, req_int, req_str, AnalysisError,
};
use crate::json::{get, index_of, kind, kind_of, lemma_member_remove, member, Json, Kind, Number};
use crate::response_messages::{Content, ResponseMessage};
use crate::text::str_eq;

verus! {

/// A position; the feed writes it as `[longitude, latitude]`.
#[derive(Debug)]
pub struct Coordinate {
    pub latitude: Number,
    pub longitude: Number,
}

/// What a coordinate array denotes.
pub open spec fn coordinate_of(j: Json) -> Result<Coordinate, AnalysisError> {
    match j {
        Json::Array(a) => if a@.len() != 2 {
            Err(AnalysisError::MissingItems(2, a@.len() as usize))
        } else {
            match (a@[0], a@[1]) {
                (Json::Num(lon), Json::Num(lat)) => Ok(Coordinate { latitude: lat, longitude: lon }),
                (Json::Num(_), v) => Err(AnalysisError::IncorrectType(Kind::Number, kind_of(v))),
                (v, _) => Err(AnalysisError::IncorrectType(Kind::Number, kind_of(v))),
            }
        },
        _ => Err(AnalysisError::IncorrectType(Kind::Array, kind_of(j))),
    }
}

impl Coordinate {
    pub fn copy(&self) -> (r: Coordinate)
        ensures
            r == *self,
    {
        Coordinate { latitude: self.latitude.copy(), longitude: self.longitude.copy() }
    }

    /// Reads a `[longitude, latitude]` array.
    pub fn try_from(j: &Json) -> (r: Result<Coordinate, AnalysisError>)
        ensures
            r == coordinate_of(*j),
    {
        match j {
            Json::Array(a) => {
                if a.len() != 2 {
                    return Err(AnalysisError::MissingItems(2, a.len()));
                }
                match (&a[0], &a[1]) {
                    (Json::Num(lon), Json::Num(lat)) => Ok(
                        Coordinate { latitude: lat.copy(), longitude: lon.copy() },
                    ),
                    (Json::Num(_), v) => Err(AnalysisError::IncorrectType(Kind::Number, kind(v))),
                    (v, _) => Err(AnalysisError::IncorrectType(Kind::Number, kind(v))),
                }
            },
            _ => Err(AnalysisError::IncorrectType(Kind::Array, kind(j))),
        }
    }
}

/// Metadata of a transit line.
#[derive(Debug, Clone, PartialEq, Eq, Hash)]
pub struct Line {
    pub color: String,
    pub id: i64,
    pub name: String,
    pub stroke: String,
    pub text_color: String,
}

/// What a line object denotes; the first failing member decides the error.
pub open spec fn line_of(j: Json) -> Result<Line, AnalysisError> {
    match j {
        Json::Object(f) => {
            let p = f@;
            if req_str(p, "color") is Err {
                Err(req_str(p, "color")->Err_0)
            } else if req_int(p, "id") is Err {
                Err(req_int(p, "id")->Err_0)
            } else if req_str(p, "name") is Err {
                Err(req_str(p, "name")->Err_0)
            } else if req_str(p, "stroke") is Err {
                Err(req_str(p, "stroke")->Err_0)
            } else if req_str(p, "text_color") is Err {
                Err(req_str(p, "text_color")->Err_0)
            } else {
                Ok(
                    Line {
                        color: req_str(p, "color")->Ok_0,
                        id: req_int(p, "id")->Ok_0,
                        name: req_str(p, "name")->Ok_0,
                        stroke: req_str(p, "stroke")->Ok_0,
                        text_color: req_str(p, "text_color")->Ok_0,
                    },
                )
            }
        },
        _ => Err(AnalysisError::IncorrectType(Kind::Object, kind_of(j))),
    }
}

impl Line {
    /// Reads a line object.
    pub fn try_from(j: Json) -> (r: Result<Line, AnalysisError>)
        ensures
            r == line_of(j),
    {
        let k = kind(&j);
        match j {
            Json::Object(mut p) => {
                let p = &mut p;
                let color = match extract_str(p, "color") {
                    Ok(v) => v,
                    Err(e) => return Err(e),
                };
                let id = match extract_int(p, "id") {
                    Ok(v) => v,
                    Err(e) => return Err(e),
                };
                let name = match extract_str(p, "name") {
                    Ok(v) => v,
                    Err(e) => return Err(e),
                };
                let stroke = match extract_str(p, "stroke") {
                    Ok(v) => v,
                    Err(e) => return Err(e),
                };
                let text_color = match extract_str(p, "text_color") {
                    Ok(v) => v,
                    Err(e) => return Err(e),
                };
                Ok(Line { color, id, name, stroke, text_color })
            },
            _ => Err(AnalysisError::IncorrectType(Kind::Object, k)),
        }
    }
}

/// The property map of a single GeoJSON feature.
pub open spec fn feature_properties(j: Json) -> Result<Seq<(String, Json)>, AnalysisError> {
    match j {
        Json::Object(f) => match member(f@, "type"@) {
            Some(Json::Str(t)) => if t@ == "Feature"@ {
                match member(f@, "properties"@) {
                    Some(Json::Object(p)) => Ok(p@),
                    Some(v) => Err(AnalysisError::IncorrectType(Kind::Properties, kind_of(v))),
                    None => Err(AnalysisError::IncorrectType(Kind::Properties, Kind::Null)),
                }
            } else {
                Err(AnalysisError::IncorrectType(Kind::Feature, Kind::Object))
            },
            _ => Err(AnalysisError::IncorrectType(Kind::Feature, Kind::Object)),
        },
        _ => Err(AnalysisError::IncorrectType(Kind::Feature, kind_of(j))),
    }
}

/// Takes the property map out of a single GeoJSON feature.
pub fn take_properties(j: Json) -> (r: Result<Vec<(String, Json)>, AnalysisError>)
    ensures
        match r {
            Ok(p) => feature_properties(j) == Ok::<Seq<(String, Json)>, AnalysisError>(p@),
            Err(e) => feature_properties(j) == Err::<Seq<(String, Json)>, AnalysisError>(e),
        },
{
    let k = kind(&j);
    let mut f = match j {
        Json::Object(f) => f,
        _ => return Err(AnalysisError::IncorrectType(Kind::Feature, k)),
    };
    let is_feature = match get(&f, "type") {
        Some(Json::Str(t)) => str_eq(t.as_str(), "Feature"),
        _ => false,
    };
    if !is_feature {
        return Err(AnalysisError::IncorrectType(Kind::Feature, Kind::Object));
    }
    match index_of(&f, "properties") {
        None => Err(AnalysisError::IncorrectType(Kind::Properties, Kind::Null)),
        Some(i) => match f.remove(i).1 {
            Json::Object(p) => Ok(p),
            v => Err(AnalysisError::IncorrectType(Kind::Properties, kind(&v))),
        },
    }
}

/// Finds the property map of a single GeoJSON feature.
pub fn properties_of(j: &Json) -> (r: Result<&Vec<(String, Json)>, AnalysisError>)
    ensures
        match r {
            Ok(p) => feature_properties(*j) == Ok::<Seq<(String, Json)>, AnalysisError>(p@),
            Err(e) => feature_properties(*j) == Err::<Seq<(String, Json)>, AnalysisError>(e),
        },
{
    match j {
        Json::Object(f) => match get(f, "type") {
            Some(Json::Str(t)) => if str_eq(t.as_str(), "Feature") {
                match get(f, "properties") {
                    Some(Json::Object(p)) => Ok(p),
                    Some(v) => Err(AnalysisError::IncorrectType(Kind::Properties, kind(v))),
                    None => Err(AnalysisError::IncorrectType(Kind::Properties, Kind::Null)),
                }
            } else {
                Err(AnalysisError::IncorrectType(Kind::Feature, Kind::Object))
            },
            _ => Err(AnalysisError::IncorrectType(Kind::Feature, Kind::Object)),
        },
        _ => Err(AnalysisError::IncorrectType(Kind::Feature, kind(j))),
    }
}

/// The optional `line` member: absent and null give no line.
pub open spec fn line_field(p: Seq<(String, Json)>) -> Result<Option<Line>, AnalysisError> {
    match member(p, "line"@) {
        None => Ok(None),
        Some(Json::Null) => Ok(None),
        Some(v) => match line_of(v) {
            Ok(l) => Ok(Some(l)),
            Err(e) => Err(e),
        },
    }
}

/// The optional `raw_coordinates` member.
pub open spec fn coordinates_field(p: Seq<(String, Json)>) -> Result<
    Option<Coordinate>,
    AnalysisError,
> {
    match member(p, "raw_coordinates"@) {
        None => Ok(None),
        Some(v) => match coordinate_of(v) {
            Ok(c) => Ok(Some(c)),
            Err(e) => Err(e),
        },
    }
}

/// Reads the optional `line` member; a line that is read is taken out, and
/// the members of every other key stay as they were.
fn line_member(p: &mut Vec<(String, Json)>) -> (r: Result<Option<Line>, AnalysisError>)
    ensures
        r == line_field(old(p)@),
        r is Ok ==> forall|k: Seq<char>|
            k != "line"@ ==> #[trigger] member(final(p)@, k) == member(old(p)@, k),
{
    let i = match index_of(p, "line") {
        None => return Ok(None),
        Some(i) => i,
    };
    match &p[i].1 {
        Json::Null => return Ok(None),
        _ => {},
    }
    let ghost before = p@;
    let (_, j) = p.remove(i);
    proof {
        assert forall|k: Seq<char>| k != "line"@ implies #[trigger] member(p@, k) == member(
            before,
            k,
        ) by {
            lemma_member_remove(before, i as int, k);
        }
    }
    match Line::try_from(j) {
        Ok(l) => Ok(Some(l)),
        Err(e) => Err(e),
    }
}

proof fn lemma_line_key_distinct()
    ensures
        "line"@ != "operator_provides_realtime_journey"@,
        "line"@ != "original_line"@,
        "line"@ != "original_rake"@,
        "line"@ != "rake"@,
        "line"@ != "raw_coordinates"@,
        "line"@ != "ride_state"@,
        "line"@ != "state"@,
        "line"@ != "tenant"@,
        "line"@ != "train_id"@,
        "line"@ != "train_number"@,
        "line"@ != "transmitting_vehicle"@,
        "line"@ != "vehicle_number"@,
{
    reveal_strlit("line");
    reveal_strlit("operator_provides_realtime_journey");
    assert("line"@[0] != "operator_provides_realtime_journey"@[0]);
    reveal_strlit("original_line");
    assert("line"@[0] != "original_line"@[0]);
    reveal_strlit("original_rake");
    assert("line"@[0] != "original_rake"@[0]);
    reveal_strlit("rake");
    assert("line"@[0] != "rake"@[0]);
    reveal_strlit("raw_coordinates");
    assert("line"@[0] != "raw_coordinates"@[0]);
    reveal_strlit("ride_state");
    assert("line"@[0] != "ride_state"@[0]);
    reveal_strlit("state");
    assert("line"@[0] != "state"@[0]);
    reveal_strlit("tenant");
    assert("line"@[0] != "tenant"@[0]);
    reveal_strlit("train_id");
    assert("line"@[0] != "train_id"@[0]);
    reveal_strlit("train_number");
    assert("line"@[0] != "train_number"@[0]);
    reveal_strlit("transmitting_vehicle");
    assert("line"@[0] != "transmitting_vehicle"@[0]);
    reveal_strlit("vehicle_number");
    assert("line"@[0] != "vehicle_number"@[0]);
}

fn coordinates_member(p: &Vec<(String, Json)>) -> (r: Result<Option<Coordinate>, AnalysisError>)
    ensures
        r == coordinates_field(p@),
{
    match get(p, "raw_coordinates") {
        None => Ok(None),
        Some(v) => match Coordinate::try_from(v) {
            Ok(c) => Ok(Some(c)),
            Err(e) => Err(e),
        },
    }
}

/// The full property set of a trajectory feature, kept for statistics.
#[derive(Debug)]
pub struct Train {
    pub delay: Option<String>,
    pub has_journey: bool,
    pub has_realtime: bool,
    pub has_realtime_journey: bool,
    pub line: Option<Line>,
    pub operator_provides_realtime_journey: String,
    pub original_line: Option<String>,
    pub original_rake: Option<String>,
    pub original_train_number: i32,
    pub position_correction: i32,
    pub rake: Option<String>,
    pub raw_coordinates: Option<Coordinate>,
    pub ride_state: Option<String>,
    pub state: Option<String>,
    pub tenant: String,
    pub train_id: String,
    pub train_number: Option<i64>,
    pub transmitting_vehicle: Option<String>,
    pub vehicle_number: Option<String>,
}

/// The first member of a trajectory's properties that fails, in the order
/// the members are read.
pub open spec fn train_error(p: Seq<(String, Json)>) -> Option<AnalysisError> {
    if opt_str(p, "delay") is Err {
        err_of(opt_str(p, "delay"))
    } else if line_field(p) is Err {
        err_of(line_field(p))
    } else if req_str(p, "operator_provides_realtime_journey") is Err {
        err_of(req_str(p, "operator_provides_realtime_journey"))
    } else if opt_str(p, "original_line") is Err {
        err_of(opt_str(p, "original_line"))
    } else if opt_str(p, "original_rake") is Err {
        err_of(opt_str(p, "original_rake"))
    } else if opt_str(p, "rake") is Err {
        err_of(opt_str(p, "rake"))
    } else if coordinates_field(p) is Err {
        err_of(coordinates_field(p))
    } else if opt_str(p, "ride_state") is Err {
        err_of(opt_str(p, "ride_state"))
    } else if opt_str(p, "state") is Err {
        err_of(opt_str(p, "state"))
    } else if req_str(p, "tenant") is Err {
        err_of(req_str(p, "tenant"))
    } else if req_str(p, "train_id") is Err {
        err_of(req_str(p, "train_id"))
    } else if opt_int(p, "train_number") is Err {
        err_of(opt_int(p, "train_number"))
    } else if opt_str(p, "transmitting_vehicle") is Err {
        err_of(opt_str(p, "transmitting_vehicle"))
    } else if opt_str(p, "vehicle_number") is Err {
        err_of(opt_str(p, "vehicle_number"))
    } else {
        None
    }
}

/// The train that properties without a failing member denote.
pub open spec fn train_value(p: Seq<(String, Json)>) -> Train {
    Train {
        delay: opt_str(p, "delay")->Ok_0,
        has_journey: flag(p, "has_journey"),
        has_realtime: flag(p, "has_realtime"),
        has_realtime_journey: flag(p, "has_realtime_journey"),
        line: line_field(p)->Ok_0,
        operator_provides_realtime_journey: req_str(p, "operator_provides_realtime_journey")->Ok_0,
        original_line: opt_str(p, "original_line")->Ok_0,
        original_rake: opt_str(p, "original_rake")->Ok_0,
        original_train_number: 0,
        position_correction: 0,
        rake: opt_str(p, "rake")->Ok_0,
        raw_coordinates: coordinates_field(p)->Ok_0,
        ride_state: opt_str(p, "ride_state")->Ok_0,
        state: opt_str(p, "state")->Ok_0,
        tenant: req_str(p, "tenant")->Ok_0,
        train_id: req_str(p, "train_id")->Ok_0,
        train_number: opt_int(p, "train_number")->Ok_0,
        transmitting_vehicle: opt_str(p, "transmitting_vehicle")->Ok_0,
        vehicle_number: opt_str(p, "vehicle_number")->Ok_0,
    }
}

/// What a trajectory feature's properties denote.
pub open spec fn train_of_properties(p: Seq<(String, Json)>) -> Result<Train, AnalysisError> {
    match train_error(p) {
        Some(e) => Err(e),
        None => Ok(train_value(p)),
    }
}

/// What a message payload denotes as a train.
pub open spec fn train_of(c: Content) -> Result<Train, AnalysisError> {
    match c {
        Content::TrajectorySchematic(j) => match feature_properties(j) {
            Ok(p) => train_of_properties(p),
            Err(e) => Err(e),
        },
        _ => Err(AnalysisError::IncorrectType(Kind::Trajectory, Kind::OtherContent)),
    }
}

impl Train {
    /// Decodes the properties of a trajectory feature.
    #[verifier::rlimit(100)]
    pub fn from_properties(p: Vec<(String, Json)>) -> (r: Result<Train, AnalysisError>)
        ensures
            r == train_of_properties(p@),
    {
        proof {
            lemma_line_key_distinct();
        }
        let mut p = p;
        let p = &mut p;
        let delay = match extract_opt_str(p, "delay") {
            Ok(v) => v,
            Err(e) => return Err(e),
        };
        let has_journey = extract_flag(p, "has_journey");
        let has_realtime = extract_flag(p, "has_realtime");
        let has_realtime_journey = extract_flag(p, "has_realtime_journey");
        let line = match line_member(p) {
            Ok(v) => v,
            Err(e) => return Err(e),
        };
        let operator_provides_realtime_journey = match extract_str(
            p,
            "operator_provides_realtime_journey",
        ) {
            Ok(v) => v,
            Err(e) => return Err(e),
        };
        let original_line = match extract_opt_str(p, "original_line") {
            Ok(v) => v,
            Err(e) => return Err(e),
        };
        let original_rake = match extract_opt_str(p, "original_rake") {
            Ok(v) => v,
            Err(e) => return Err(e),
        };
        let rake = match extract_opt_str(p, "rake") {
            Ok(v) => v,
            Err(e) => return Err(e),
        };
        let raw_coordinates = match coordinates_member(p) {
            Ok(v) => v,
            Err(e) => return Err(e),
        };
        let ride_state = match extract_opt_str(p, "ride_state") {
            Ok(v) => v,
            Err(e) => return Err(e),
        };
        let state = match extract_opt_str(p, "state") {
            Ok(v) => v,
            Err(e) => return Err(e),
        };
        let tenant = match extract_str(p, "tenant") {
            Ok(v) => v,
            Err(e) => return Err(e),
        };
        let train_id = match extract_str(p, "train_id") {
            Ok(v) => v,
            Err(e) => return Err(e),
        };
        let train_number = match extract_opt_int(p, "train_number") {
            Ok(v) => v,
            Err(e) => return Err(e),
        };
        let transmitting_vehicle = match extract_opt_str(p, "transmitting_vehicle") {
            Ok(v) => v,
            Err(e) => return Err(e),
        };
        let vehicle_number = match extract_opt_str(p, "vehicle_number") {
            Ok(v) => v,
            Err(e) => return Err(e),
        };
        Ok(
            Train {
                delay,
                has_journey,
                has_realtime,
                has_realtime_journey,
                line,
                operator_provides_realtime_journey,
                original_line,
                original_rake,
                original_train_number: 0,
                position_correction: 0,
                rake,
                raw_coordinates,
                ride_state,
                state,
                tenant,
                train_id,
                train_number,
                transmitting_vehicle,
                vehicle_number,
            },
        )
    }

    /// Decodes a trajectory payload into its full property set.
    pub fn try_from(c: Content) -> (r: Result<Train, AnalysisError>)
        ensures
            r == train_of(c),
    {
        match c {
            Content::TrajectorySchematic(j) => match take_properties(j) {
                Ok(p) => Train::from_properties(p),
                Err(e) => Err(e),
            },
            _ => Err(AnalysisError::IncorrectType(Kind::Trajectory, Kind::OtherContent)),
        }
    }
}

/// Whether a vehicle moves or stands at a platform.
#[derive(Clone, Copy, Debug, PartialEq, Eq, Structural)]
pub enum State {
    Driving,
    Boarding,
}

/// `DRIVING` means driving; every other state counts as boarding.
pub open spec fn state_of(s: Seq<char>) -> State {
    if s == "DRIVING"@ {
        State::Driving
    } else {
        State::Boarding
    }
}

impl State {
    pub fn from(s: &str) -> (r: State)
        ensures
            r == state_of(s@),
    {
        if str_eq(s, "DRIVING") {
            State::Driving
        } else {
            State::Boarding
        }
    }
}

/// A sample of one vehicle, as replay needs it.
#[derive(Debug)]
pub struct Record {
    pub timestamp: Number,
    pub position: Coordinate,
    pub line: String,
    pub line_color: Rgb,
    pub state: State,
    pub vehicle_number: String,
    pub train_number: i64,
}

/// The position member a record requires.
pub open spec fn position_field(p: Seq<(String, Json)>) -> Result<Coordinate, AnalysisError> {
    match member(p, "raw_coordinates"@) {
        None => Err(AnalysisError::MissingProperty("raw_coordinates")),
        Some(v) => coordinate_of(v),
    }
}

/// A string member of the required `line` object.
pub open spec fn line_text(p: Seq<(String, Json)>, name: &'static str) -> Result<String, AnalysisError> {
    match member(p, "line"@) {
        None => Err(AnalysisError::MissingProperty("line")),
        Some(Json::Object(f)) => match member(f@, name@) {
            None => Err(AnalysisError::MissingProperty(name)),
            Some(Json::Str(s)) => Ok(s),
            Some(v) => Err(AnalysisError::IncorrectType(Kind::Str, kind_of(v))),
        },
        Some(v) => Err(AnalysisError::IncorrectType(Kind::Object, kind_of(v))),
    }
}

/// The colour of the required `line` object.
pub open spec fn line_color_field(p: Seq<(String, Json)>) -> Result<Rgb, AnalysisError> {
    match line_text(p, "color") {
        Err(e) => Err(e),
        Ok(s) => match color_of(s@) {
            Ok(c) => Ok(c),
            Err(e) => Err(AnalysisError::Color(e)),
        },
    }
}

/// A string member a record requires: anything but a string counts as absent.
pub open spec fn record_text(p: Seq<(String, Json)>, name: &'static str) -> Result<String, AnalysisError> {
    match member(p, name@) {
        Some(Json::Str(s)) => Ok(s),
        _ => Err(AnalysisError::MissingProperty(name)),
    }
}

/// The train number a record requires.
pub open spec fn train_number_field(p: Seq<(String, Json)>) -> Result<i64, AnalysisError> {
    match member(p, "train_number"@) {
        None => Err(AnalysisError::MissingProperty("train_number")),
        Some(Json::Num(Number::Int(i))) => Ok(i),
        Some(v) => Err(AnalysisError::IncorrectType(Kind::Integer, kind_of(v))),
    }
}

/// The first member of a record that fails, in the order they are read.
pub open spec fn record_error(p: Seq<(String, Json)>) -> Option<AnalysisError> {
    if position_field(p) is Err {
        err_of(position_field(p))
    } else if line_text(p, "name") is Err {
        err_of(line_text(p, "name"))
    } else if line_color_field(p) is Err {
        err_of(line_color_field(p))
    } else if record_text(p, "state") is Err {
        err_of(record_text(p, "state"))
    } else if record_text(p, "vehicle_number") is Err {
        err_of(record_text(p, "vehicle_number"))
    } else if train_number_field(p) is Err {
        err_of(train_number_field(p))
    } else {
        None
    }
}

/// What a message denotes as a replay sample.
pub open spec fn record_of(m: ResponseMessage) -> Result<Record, AnalysisError> {
    match m.content {
        Content::TrajectorySchematic(j) => match feature_properties(j) {
            Err(e) => Err(e),
            Ok(p) => match record_error(p) {
                Some(e) => Err(e),
                None => Ok(
                    Record {
                        timestamp: m.timestamp,
                        position: position_field(p)->Ok_0,
                        line: line_text(p, "name")->Ok_0,
                        line_color: line_color_field(p)->Ok_0,
                        state: state_of(record_text(p, "state")->Ok_0@),
                        vehicle_number: record_text(p, "vehicle_number")->Ok_0,
                        train_number: train_number_field(p)->Ok_0,
                    },
                ),
            },
        },
        _ => Err(AnalysisError::IncorrectType(Kind::Trajectory, Kind::OtherContent)),
    }
}

fn position_member(p: &Vec<(String, Json)>) -> (r: Result<Coordinate, AnalysisError>)
    ensures
        r == position_field(p@),
{
    match get(p, "raw_coordinates") {
        None => Err(AnalysisError::MissingProperty("raw_coordinates")),
        Some(v) => Coordinate::try_from(v),
    }
}

fn line_member_text(p: &Vec<(String, Json)>, name: &'static str) -> (r: Result<String, AnalysisError>)
    ensures
        r == line_text(p@, name),
{
    match get(p, "line") {
        None => Err(AnalysisError::MissingProperty("line")),
        Some(Json::Object(f)) => match get(f, name) {
            None => Err(AnalysisError::MissingProperty(name)),
            Some(Json::Str(s)) => Ok(s.clone()),
            Some(v) => Err(AnalysisError::IncorrectType(Kind::Str, kind(v))),
        },
        Some(v) => Err(AnalysisError::IncorrectType(Kind::Object, kind(v))),
    }
}

fn record_member_text(p: &Vec<(String, Json)>, name: &'static str) -> (r: Result<String, AnalysisError>)
    ensures
        r == record_text(p@, name),
{
    match get(p, name) {
        Some(Json::Str(s)) => Ok(s.clone()),
        _ => Err(AnalysisError::MissingProperty(name)),
    }
}

fn train_number_member(p: &Vec<(String, Json)>) -> (r: Result<i64, AnalysisError>)
    ensures
        r == train_number_field(p@),
{
    match get(p, "train_number") {
        None => Err(AnalysisError::MissingProperty("train_number")),
        Some(Json::Num(Number::Int(i))) => Ok(*i),
        Some(v) => Err(AnalysisError::IncorrectType(Kind::Integer, kind(v))),
    }
}

impl Record {
    /// Decodes the replay sample of a trajectory message.
    pub fn try_from(m: &ResponseMessage) -> (r: Result<Record, AnalysisError>)
        ensures
            r == record_of(*m),
    {
        let j = match &m.content {
            Content::TrajectorySchematic(j) => j,
            _ => return Err(AnalysisError::IncorrectType(Kind::Trajectory, Kind::OtherContent)),
        };
        let p = match properties_of(j) {
            Ok(p) => p,
            Err(e) => return Err(e),
        };
        let position = match position_member(p) {
            Ok(v) => v,
            Err(e) => return Err(e),
        };
        let line = match line_member_text(p, "name") {
            Ok(v) => v,
            Err(e) => return Err(e),
        };
        let color_text = match line_member_text(p, "color") {
            Ok(v) => v,
            Err(e) => return Err(e),
        };
        let line_color = match try_color_from_string(color_text.as_str()) {
            Ok(c) => c,
            Err(e) => return Err(AnalysisError::Color(e)),
        };
        let state_text = match record_member_text(p, "state") {
            Ok(v) => v,
            Err(e) => return Err(e),
        };
        let vehicle_number = match record_member_text(p, "vehicle_number") {
            Ok(v) => v,
            Err(e) => return Err(e),
        };
        let train_number = match train_number_member(p) {
            Ok(v) => v,
            Err(e) => return Err(e),
        };
        Ok(
            Record {
                timestamp: m.timestamp.copy(),
                position,
                line,
                line_color,
                state: State::from(state_text.as_str()),
                vehicle_number,
                train_number,
            },
        )
    }
}

/// A trajectory whose properties lack `train_id`, and read well up to it,
/// fails as a train with `MissingProperty("train_id")`; its record does not
/// read `train_id` at all: properties that differ only there give the same
/// record, or the same error.
pub proof fn lemma_missing_train_id(p: Seq<(String, Json)>, q: Seq<(String, Json)>)
    requires
        member(p, "train_id"@) is None,
        opt_str(p, "delay") is Ok,
        line_field(p) is Ok,
        req_str(p, "operator_provides_realtime_journey") is Ok,
        opt_str(p, "original_line") is Ok,
        opt_str(p, "original_rake") is Ok,
        opt_str(p, "rake") is Ok,
        coordinates_field(p) is Ok,
        opt_str(p, "ride_state") is Ok,
        opt_str(p, "state") is Ok,
        req_str(p, "tenant") is Ok,
        forall|k: Seq<char>| k != "train_id"@ ==> #[trigger] member(q, k) == member(p, k),
    ensures
        train_of_properties(p) == Err::<Train, AnalysisError>(
            AnalysisError::MissingProperty("train_id"),
        ),
        record_error(q) == record_error(p),
        position_field(q) == position_field(p),
        line_text(q, "name") == line_text(p, "name"),
        line_color_field(q) == line_color_field(p),
        record_text(q, "state") == record_text(p, "state"),
        record_text(q, "vehicle_number") == record_text(p, "vehicle_number"),
        train_number_field(q) == train_number_field(p),
{
    reveal_strlit("train_id");
    reveal_strlit("raw_coordinates");
    reveal_strlit("line");
    reveal_strlit("state");
    reveal_strlit("vehicle_number");
    reveal_strlit("train_number");
    assert("train_id"@[0] != "raw_coordinates"@[0]);
    assert("train_id"@[0] != "line"@[0]);
    assert("train_id"@[0] != "state"@[0]);
    assert("train_id"@[0] != "vehicle_number"@[0]);
    assert("train_id"@.len() != "train_number"@.len());
    assert(member(q, "raw_coordinates"@) == member(p, "raw_coordinates"@));
    assert(member(q, "line"@) == member(p, "line"@));
    assert(member(q, "state"@) == member(p, "state"@));
    assert(member(q, "vehicle_number"@) == member(p, "vehicle_number"@));
    assert(member(q, "train_number"@) == member(p, "train_number"@));
}

} // verus!
