use scraper::analysis::{Analysis, Ingested};
use scraper::codec::{decode_checked, decode_message, encode_message};
use scraper::color::{try_color_from_string, ColorConversionError, Rgb};
use scraper::fields::{extract_int, extract_opt_str, extract_str, AnalysisError};
use scraper::json::{Json, Kind, Number};
use scraper::records::{Coordinate, Line, Record, State, Train};
use scraper::response_messages::{
    Content, ExtraGeoms, HealthCheck, NewsTickerMessage, Properties, ResponseMessage,
    SbmNewsTicker, WebSocket,
};

fn s(v: &str) -> String {
    v.to_string()
}

fn obj(members: Vec<(&str, Json)>) -> Json {
    Json::Object(members.into_iter().map(|(k, v)| (s(k), v)).collect())
}

fn text(v: &str) -> Json {
    Json::Str(s(v))
}

fn dec(v: &str) -> Json {
    Json::Num(Number::Decimal(s(v)))
}

fn line_json(color: &str) -> Json {
    obj(vec![
        ("color", text(color)),
        ("id", Json::Num(Number::Int(7))),
        ("name", text("S8")),
        ("stroke", text("#000000")),
        ("text_color", text("#ffffff")),
    ])
}

fn props(vehicle: &str, lon: &str, lat: &str, with_train_id: bool) -> Vec<(&'static str, Json)> {
    let mut p = vec![
        ("delay", Json::Null),
        ("has_journey", Json::Bool(true)),
        ("line", line_json("#1A2B3C")),
        ("operator_provides_realtime_journey", text("yes")),
        ("raw_coordinates", Json::Array(vec![dec(lon), dec(lat)])),
        ("state", text("DRIVING")),
        ("tenant", text("sbm")),
        ("train_number", Json::Num(Number::Int(6123))),
        ("vehicle_number", Json::Str(vehicle.to_string())),
    ];
    if with_train_id {
        p.push(("train_id", text("sbm_1")));
    }
    p
}

fn feature(p: Vec<(&str, Json)>) -> Json {
    obj(vec![("type", text("Feature")), ("properties", obj(p))])
}

fn trajectory_doc(vehicle: &str, lon: &str, lat: &str, with_train_id: bool) -> Json {
    obj(vec![
        ("source", text("trajectory_schematic")),
        ("content", feature(props(vehicle, lon, lat, with_train_id))),
        ("timestamp", dec("1697454536271.5")),
        ("client_reference", Json::Null),
    ])
}

fn message(content: Content) -> ResponseMessage {
    ResponseMessage {
        content,
        timestamp: Number::Decimal(s("1697454536271.5")),
        client_reference: Some(3),
    }
}

fn round_trip(content: Content) {
    let m = message(content);
    let expected = format!("{:?}", m);
    let back = decode_message(encode_message(m)).expect("decodes");
    assert_eq!(format!("{:?}", back), expected);
}

#[test]
fn round_trip_healthcheck() {
    round_trip(Content::Healthcheck(HealthCheck { service: s("realtime"), healthy: true, tenant: None }));
    round_trip(Content::Healthcheck(HealthCheck {
        service: s("realtime"),
        healthy: false,
        tenant: Some(s("sbm")),
    }));
}

#[test]
fn round_trip_newsticker() {
    round_trip(Content::SbmNewsTicker(SbmNewsTicker {
        incident_program: Some(true),
        messages: vec![NewsTickerMessage {
            title: s("Disruption"),
            lines: vec![s("S1"), s("S8")],
            content: s("Delays"),
            updated: s("2023-10-16"),
        }],
    }));
}

#[test]
fn round_trip_small_payloads() {
    round_trip(Content::Websocket(WebSocket::Status { status: s("open") }));
    round_trip(Content::Websocket(WebSocket::Pong(s("PONG"))));
    round_trip(Content::ExtraGeoms(None));
    round_trip(Content::ExtraGeoms(Some(ExtraGeoms {
        kind: s("Feature"),
        properties: Properties { reference: s("r1") },
    })));
    round_trip(Content::DeletedVehicles(Some(s("sbm_140404727073712"))));
    round_trip(Content::DeletedVehiclesSchematic(None));
    round_trip(Content::Trajectory(feature(vec![])));
    round_trip(Content::StationSchematic(Json::Null));
}

#[test]
fn unknown_tag_is_unrecognized() {
    let doc = obj(vec![
        ("source", text("brand_new_topic")),
        ("content", Json::Bool(true)),
        ("timestamp", Json::Num(Number::Int(5))),
    ]);
    let m = decode_message(doc).expect("accepted");
    match m.content {
        Content::Unrecognized(tag, payload) => {
            assert_eq!(tag, "brand_new_topic");
            assert!(matches!(payload, Json::Bool(true)));
        }
        other => panic!("unexpected {:?}", other),
    }
}

#[test]
fn malformed_documents_are_refused() {
    assert!(decode_message(Json::Null).is_err());
    let no_time = obj(vec![("source", text("healthcheck")), ("content", Json::Null)]);
    assert!(decode_message(no_time).is_err());
    let bad_health = obj(vec![
        ("source", text("healthcheck")),
        ("content", obj(vec![("service", text("x"))])),
        ("timestamp", Json::Num(Number::Int(1))),
    ]);
    assert!(decode_message(bad_health).is_err());
}

#[test]
fn coordinate_axis_order() {
    let c = Coordinate::try_from(&Json::Array(vec![dec("11.58"), dec("48.14")])).unwrap();
    assert!(matches!(&c.longitude, Number::Decimal(v) if v == "11.58"));
    assert!(matches!(&c.latitude, Number::Decimal(v) if v == "48.14"));
}

#[test]
fn coordinate_errors() {
    let three = Json::Array(vec![dec("1.0"), dec("2.0"), dec("3.0")]);
    assert_eq!(Coordinate::try_from(&three).unwrap_err(), AnalysisError::MissingItems(2, 3));
    let words = Json::Array(vec![text("a"), dec("2.0")]);
    assert_eq!(
        Coordinate::try_from(&words).unwrap_err(),
        AnalysisError::IncorrectType(Kind::Number, Kind::Str)
    );
    assert_eq!(
        Coordinate::try_from(&Json::Null).unwrap_err(),
        AnalysisError::IncorrectType(Kind::Array, Kind::Null)
    );
}

#[test]
fn color_parsing() {
    let c = try_color_from_string("#1A2B3C").unwrap();
    assert_eq!(c, Rgb { r: 26, g: 43, b: 60 });
    assert_eq!(f32::from(c.r) / 255.0, 26.0 / 255.0);
    assert_eq!(f32::from(c.g) / 255.0, 43.0 / 255.0);
    assert_eq!(f32::from(c.b) / 255.0, 60.0 / 255.0);
    assert_eq!(try_color_from_string("1A2B3C"), Err(ColorConversionError::WrongBeginning));
    assert_eq!(try_color_from_string("#GGHHII"), Err(ColorConversionError::ParseInt));
    assert_eq!(try_color_from_string("#abcdef"), Ok(Rgb { r: 171, g: 205, b: 239 }));
    assert_eq!(try_color_from_string("#12345"), Err(ColorConversionError::ParseInt));
}

#[test]
fn train_from_trajectory() {
    let content = Content::TrajectorySchematic(feature(props("V1", "11.5", "48.1", true)));
    let t = Train::try_from(content).unwrap();
    assert_eq!(t.delay, None);
    assert!(t.has_journey);
    assert!(!t.has_realtime);
    assert_eq!(t.train_id, "sbm_1");
    assert_eq!(t.train_number, Some(6123));
    assert_eq!(t.state, Some(s("DRIVING")));
    assert_eq!(
        t.line,
        Some(Line { color: s("#1A2B3C"), id: 7, name: s("S8"), stroke: s("#000000"), text_color: s("#ffffff") })
    );
}

#[test]
fn train_field_errors() {
    let mut p = props("V1", "11.5", "48.1", true);
    p.push(("original_line", Json::Num(Number::Int(3))));
    let content = Content::TrajectorySchematic(feature(p));
    assert_eq!(
        Train::try_from(content).unwrap_err(),
        AnalysisError::IncorrectValueType(Kind::Str, Json::Num(Number::Int(3)), Kind::Number)
    );
    let not_feature = Content::TrajectorySchematic(Json::Null);
    assert_eq!(
        Train::try_from(not_feature).unwrap_err(),
        AnalysisError::IncorrectType(Kind::Feature, Kind::Null)
    );
    let other = Content::DeletedVehicles(None);
    assert_eq!(
        Train::try_from(other).unwrap_err(),
        AnalysisError::IncorrectType(Kind::Trajectory, Kind::OtherContent)
    );
}

#[test]
fn missing_train_id() {
    let m = decode_message(trajectory_doc("V1", "11.5", "48.1", false)).unwrap();
    let r = Record::try_from(&m).unwrap();
    assert_eq!(r.vehicle_number, "V1");
    assert_eq!(Train::try_from(m.content).unwrap_err(), AnalysisError::MissingProperty("train_id"));
    let mut a = Analysis::new();
    let out = a.ingest(trajectory_doc("V1", "11.5", "48.1", false), true);
    assert_eq!(
        out,
        Ingested::Trajectory { train: Some(AnalysisError::MissingProperty("train_id")), record: None }
    );
    assert_eq!(a.trains, 0);
    assert_eq!(a.history.vehicles.len(), 1);
}

#[test]
fn record_from_trajectory() {
    let m = decode_message(trajectory_doc("V9", "11.58", "48.14", true)).unwrap();
    let r = Record::try_from(&m).unwrap();
    assert_eq!(r.line, "S8");
    assert_eq!(r.line_color, Rgb { r: 26, g: 43, b: 60 });
    assert_eq!(r.state, State::Driving);
    assert_eq!(r.train_number, 6123);
    assert!(matches!(&r.position.longitude, Number::Decimal(v) if v == "11.58"));
    assert!(matches!(&r.timestamp, Number::Decimal(v) if v == "1697454536271.5"));
}

#[test]
fn record_color_error() {
    let mut p = props("V1", "11.5", "48.1", true);
    p.retain(|(k, _)| *k != "line");
    p.push(("line", line_json("1A2B3C")));
    let m = message(Content::TrajectorySchematic(feature(p)));
    assert_eq!(
        Record::try_from(&m).unwrap_err(),
        AnalysisError::Color(ColorConversionError::WrongBeginning)
    );
}

#[test]
fn malformed_line_does_not_stop_the_scan() {
    let mut a = Analysis::new();
    assert!(matches!(a.ingest(trajectory_doc("V1", "11.1", "48.1", true), true), Ingested::Trajectory { train: None, record: None }));
    assert!(matches!(a.ingest(text("not a message"), true), Ingested::Malformed(_)));
    assert!(matches!(a.ingest(trajectory_doc("V1", "11.2", "48.2", true), true), Ingested::Trajectory { train: None, record: None }));
    assert_eq!(a.trains, 2);
    assert_eq!(a.history.vehicles.len(), 1);
    assert_eq!(a.history.vehicles[0].records.len(), 2);
    assert_eq!(a.states.get(&Some(s("DRIVING"))), 2);
    assert_eq!(a.delays.get(&None), 2);
}

#[test]
fn wrong_kind_carries_the_value() {
    let mut p = vec![(s("delay"), Json::Null), (s("rake"), Json::Num(Number::Int(5)))];
    assert_eq!(extract_opt_str(&mut p, "delay"), Ok(None));
    assert_eq!(extract_opt_str(&mut p, "state"), Ok(None));
    assert_eq!(extract_str(&mut p, "tenant"), Err(AnalysisError::MissingProperty("tenant")));
    assert_eq!(p.len(), 2);
    assert_eq!(
        extract_opt_str(&mut p, "rake"),
        Err(AnalysisError::IncorrectValueType(Kind::Str, Json::Num(Number::Int(5)), Kind::Number))
    );
    let mut q = vec![(s("id"), Json::Bool(true))];
    assert_eq!(
        extract_int(&mut q, "id"),
        Err(AnalysisError::IncorrectValueType(Kind::Integer, Json::Bool(true), Kind::Bool))
    );
}

#[test]
fn wrong_kind_in_line_object() {
    let mut p = props("V1", "11.5", "48.1", true);
    p.retain(|(k, _)| *k != "line");
    p.push((
        "line",
        obj(vec![
            ("color", text("#1A2B3C")),
            ("id", text("seven")),
            ("name", text("S8")),
            ("stroke", text("#000000")),
            ("text_color", text("#ffffff")),
        ]),
    ));
    assert_eq!(
        Train::try_from(Content::TrajectorySchematic(feature(p))).unwrap_err(),
        AnalysisError::IncorrectValueType(Kind::Integer, text("seven"), Kind::Str)
    );
}

#[test]
fn geometry_payload_must_be_geojson() {
    assert!(decode_checked(trajectory_doc("V1", "11.5", "48.1", true), false).is_err());
    assert!(decode_checked(trajectory_doc("V1", "11.5", "48.1", true), true).is_ok());
    let health = obj(vec![
        ("source", text("healthcheck")),
        ("content", obj(vec![("service", text("x")), ("healthy", Json::Bool(true))])),
        ("timestamp", Json::Num(Number::Int(1))),
    ]);
    assert!(decode_checked(health, false).is_ok());
    let mut a = Analysis::new();
    assert!(matches!(a.ingest(trajectory_doc("V1", "11.5", "48.1", true), false), Ingested::Malformed(_)));
    assert_eq!(a.trains, 0);
    assert_eq!(a.history.vehicles.len(), 0);
}
