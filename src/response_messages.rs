//! The messages of the live feed.
use vstd::prelude::*;

use crate::json::{Json, Number};

verus! {

/// Status of the streaming session, or the answer to a keepalive.
#[derive(Debug)]
pub enum WebSocket {
    Status { status: String },
    Pong(String),
}

#[derive(Debug)]
pub struct HealthCheck {
    pub service: String,
    pub healthy: bool,
    pub tenant: Option<String>,
}

/// The member `ref` of an extra geometry.
#[derive(Debug)]
pub struct Properties {
    pub reference: String,
}

/// An extra geometry; `kind` is its member `type`.
#[derive(Debug)]
pub struct ExtraGeoms {
    pub kind: String,
    pub properties: Properties,
}

#[derive(Debug)]
pub struct NewsTickerMessage {
    pub title: String,
    pub lines: Vec<String>,
    pub content: String,
    pub updated: String,
}

#[derive(Debug)]
pub struct SbmNewsTicker {
    pub incident_program: Option<bool>,
    pub messages: Vec<NewsTickerMessage>,
}

/// The payload of a message, chosen by its `source` tag. Geometry payloads
/// are kept as the JSON they came in.
#[derive(Debug)]
pub enum Content {
    TrajectorySchematic(Json),
    DeletedVehiclesSchematic(Option<String>),
    StationSchematic(Json),
    Websocket(WebSocket),
    ExtraGeoms(Option<ExtraGeoms>),
    Healthcheck(HealthCheck),
    SbmNewsTicker(SbmNewsTicker),
    Trajectory(Json),
    DeletedVehicles(Option<String>),
    Station(Json),
    /// A tag this library does not know, with its payload.
    Unrecognized(String, Json),
}

/// One message of the feed.
#[derive(Debug)]
pub struct ResponseMessage {
    pub content: Content,
    /// Milliseconds since the epoch.
    pub timestamp: Number,
    pub client_reference: Option<i8>,
}

} // verus!
