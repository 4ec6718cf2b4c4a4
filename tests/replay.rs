use scraper::counter::Counter;
use scraper::history::Trains;
use scraper::json::Number;
use scraper::records::{Coordinate, Record, State};
use scraper::color::Rgb;
use scraper::session::{next_frame, on_event, ping_command, subscription_commands, FeedEvent};
use scraper::session::connect_failure_is_fatal;

fn record(vehicle: &str, lon: i64) -> Record {
    Record {
        timestamp: Number::Int(lon),
        position: Coordinate { latitude: Number::Int(48), longitude: Number::Int(lon) },
        line: "S1".to_string(),
        line_color: Rgb { r: 1, g: 2, b: 3 },
        state: State::Boarding,
        vehicle_number: vehicle.to_string(),
        train_number: 1,
    }
}

fn lon(c: &Coordinate) -> i64 {
    match c.longitude {
        Number::Int(v) => v,
        _ => panic!("integer expected"),
    }
}

#[test]
fn timeline_keeps_arrival_order() {
    let mut t = Trains::new();
    t.insert(record("V1", 3));
    t.insert(record("V2", 100));
    t.insert(record("V1", 1));
    t.insert(record("V1", 2));
    assert_eq!(t.vehicles.len(), 2);
    let v1: Vec<i64> = t.vehicles[0].records.iter().map(|r| lon(&r.position)).collect();
    assert_eq!(v1, vec![3, 1, 2]);
    for i in 0..3 {
        let frame = t.render(i);
        let mine: Vec<_> = frame.iter().filter(|d| d.vehicle == "V1").collect();
        assert_eq!(mine.len(), 1);
        assert_eq!(lon(&mine[0].position), v1[i]);
    }
    let frame = t.render(3);
    assert!(frame.iter().all(|d| d.vehicle != "V1"));
    assert_eq!(t.render(1).len(), 1);
    assert_eq!(t.render(0).len(), 2);
}

#[test]
fn counter_buckets() {
    let mut c: Counter<String> = Counter::new();
    assert_eq!(c.insert(None), None);
    assert_eq!(c.insert(Some("A".to_string())), None);
    assert_eq!(c.insert(Some("A".to_string())), Some(2));
    assert_eq!(c.insert(None), Some(2));
    assert_eq!(c.insert(Some("B".to_string())), None);
    assert_eq!(c.get(&None), 2);
    assert_eq!(c.get(&Some("A".to_string())), 2);
    assert_eq!(c.get(&Some("B".to_string())), 1);
    assert_eq!(c.get(&Some("C".to_string())), 0);
}

#[test]
fn keepalive_and_reconnect() {
    let a = on_event(FeedEvent::Text("x".to_string()), 9_999);
    assert_eq!(a.log, Some("x".to_string()));
    assert!(!a.ping && !a.reconnect);
    let a = on_event(FeedEvent::Other, 10_000);
    assert!(a.ping && !a.reconnect && a.log.is_none());
    let a = on_event(FeedEvent::Close, 20_000);
    assert!(a.reconnect && !a.ping);
    let a = on_event(FeedEvent::Failure, 0);
    assert!(a.reconnect && !a.ping);
    assert_eq!(ping_command(), "PING");
}

#[test]
fn handshake_commands() {
    let c = subscription_commands();
    assert_eq!(c.len(), 20);
    assert_eq!(c[0], "BBOX 1152072 6048052 1433666 6205578 5 tenant=sbm");
    assert_eq!(c[1], "BUFFER 100 100");
    assert_eq!(c[2], "GET extra_geoms");
    assert_eq!(c[3], "SUB extra_geoms");
    assert_eq!(c[19], "SUB trajectory");
}

#[test]
fn replay_clock_wraps() {
    assert_eq!(next_frame(0, 995), 1);
    assert_eq!(next_frame(993, 995), 994);
    assert_eq!(next_frame(994, 995), 0);
    assert_eq!(next_frame(usize::MAX, 3), 0);
    assert_eq!(next_frame(0, 1), 0);
}

#[test]
fn replay_bound_from_longest_timeline() {
    let mut t = Trains::new();
    assert_eq!(t.longest(), 0);
    t.insert(record("V1", 1));
    t.insert(record("V2", 2));
    t.insert(record("V2", 3));
    assert_eq!(t.longest(), 2);
}

#[test]
fn only_first_connect_failure_is_fatal() {
    assert!(connect_failure_is_fatal(false));
    assert!(!connect_failure_is_fatal(true));
}
