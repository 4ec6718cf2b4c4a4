//! Decisions of the streaming session and of the replay clock.
use vstd::prelude::*;

verus! {

/// Milliseconds between two keepalive pings.
pub const PING_INTERVAL_MS: u64 = 10000;

/// The commands sent right after connecting, in order: the spatial filter,
/// the buffering hint, then `GET` and `SUB` for each topic.
pub open spec fn handshake() -> Seq<Seq<char>> {
    seq![
        "BBOX 1152072 6048052 1433666 6205578 5 tenant=sbm"@,
        "BUFFER 100 100"@,
        "GET extra_geoms"@,
        "SUB extra_geoms"@,
        "GET healthcheck"@,
        "SUB healthcheck"@,
        "GET sbm_newsticker"@,
        "SUB sbm_newsticker"@,
        "GET station_schematic"@,
        "SUB station_schematic"@,
        "GET deleted_vehicles_schematic"@,
        "SUB deleted_vehicles_schematic"@,
        "GET trajectory_schematic"@,
        "SUB trajectory_schematic"@,
        "GET station"@,
        "SUB station"@,
        "GET deleted_vehicles"@,
        "SUB deleted_vehicles"@,
        "GET trajectory"@,
        "SUB trajectory"@,
    ]
}

/// The handshake commands.
pub fn subscription_commands() -> (r: Vec<&'static str>)
    ensures
        r@.len() == handshake().len(),
        forall|i: int| 0 <= i < r@.len() ==> #[trigger] r@[i]@ == handshake()[i],
{
    let r = vec![
        "BBOX 1152072 6048052 1433666 6205578 5 tenant=sbm",
        "BUFFER 100 100",
        "GET extra_geoms",
        "SUB extra_geoms",
        "GET healthcheck",
        "SUB healthcheck",
        "GET sbm_newsticker",
        "SUB sbm_newsticker",
        "GET station_schematic",
        "SUB station_schematic",
        "GET deleted_vehicles_schematic",
        "SUB deleted_vehicles_schematic",
        "GET trajectory_schematic",
        "SUB trajectory_schematic",
        "GET station",
        "SUB station",
        "GET deleted_vehicles",
        "SUB deleted_vehicles",
        "GET trajectory",
        "SUB trajectory",
    ];
    r
}

/// The keepalive message.
pub fn ping_command() -> (r: &'static str)
    ensures
        r@ == "PING"@,
{
    "PING"
}

/// What the connection delivered.
#[derive(Debug)]
pub enum FeedEvent {
    /// A text frame.
    Text(String),
    /// A binary, ping or pong frame.
    Other,
    /// The peer closed the connection.
    Close,
    /// Reading failed.
    Failure,
}

/// What the session does next.
#[derive(Debug)]
pub struct FeedAction {
    /// A line to append to the log.
    pub log: Option<String>,
    /// Whether to send a keepalive ping now.
    pub ping: bool,
    /// Whether to drop the connection and connect again.
    pub reconnect: bool,
}

/// Decides what follows an event, `since_ping_ms` after the last ping.
pub fn on_event(ev: FeedEvent, since_ping_ms: u64) -> (a: FeedAction)
    ensures
        a.reconnect == (ev is Close || ev is Failure),
        a.ping == (!a.reconnect && since_ping_ms >= PING_INTERVAL_MS),
        a.log == (match ev {
            FeedEvent::Text(t) => Some(t),
            _ => None::<String>,
        }),
{
    let due = since_ping_ms >= PING_INTERVAL_MS;
    match ev {
        FeedEvent::Text(t) => FeedAction { log: Some(t), ping: due, reconnect: false },
        FeedEvent::Other => FeedAction { log: None, ping: due, reconnect: false },
        FeedEvent::Close => FeedAction { log: None, ping: false, reconnect: true },
        FeedEvent::Failure => FeedAction { log: None, ping: false, reconnect: true },
    }
}

/// The replay frame after `i` in a playback of `frames` frames, wrapping
/// to zero at the bound.
pub fn next_frame(i: usize, frames: usize) -> (r: usize)
    requires
        frames > 0,
    ensures
        r == if i + 1 >= frames {
            0
        } else {
            i + 1
        },
        r < frames,
{
    if i >= frames - 1 {
        0
    } else {
        i + 1
    }
}

/// Whether a failed connection attempt ends the session: only when no
/// connection was ever established; later failures are retried.
pub fn connect_failure_is_fatal(ever_connected: bool) -> (r: bool)
    ensures
        r == !ever_connected,
{
    !ever_connected
}

} // verus!
