//! The envelope of a feed message: decoding from JSON and encoding back.
use vstd::prelude::*;

use crate::json::{get, index_of, lemma_member_at, member, Json, Number};
use crate::response_messages::{
    Content, ExtraGeoms, HealthCheck, NewsTickerMessage, Properties, ResponseMessage,
    SbmNewsTicker, WebSocket,
};
use crate::text::str_eq;

verus! {

/// A document that is not a message of the feed; it names the part that failed.
#[derive(Clone, Copy, Debug, PartialEq, Eq)]
pub struct ParseError {
    pub part: &'static str,
}

pub open spec fn text_member(p: Seq<(String, Json)>, name: Seq<char>) -> Option<String> {
    match member(p, name) {
        Some(Json::Str(s)) => Some(s),
        _ => None,
    }
}

/// An optional string: absent and null give no value; the outer `None`
/// marks a value of another kind.
pub open spec fn opt_text(j: Option<Json>) -> Option<Option<String>> {
    match j {
        None => Some(None),
        Some(Json::Null) => Some(None),
        Some(Json::Str(s)) => Some(Some(s)),
        _ => None,
    }
}

pub open spec fn opt_flag(j: Option<Json>) -> Option<Option<bool>> {
    match j {
        None => Some(None),
        Some(Json::Null) => Some(None),
        Some(Json::Bool(b)) => Some(Some(b)),
        _ => None,
    }
}

fn text_at(p: &Vec<(String, Json)>, name: &str) -> (r: Option<String>)
    ensures
        r == text_member(p@, name@),
{
    match get(p, name) {
        Some(Json::Str(s)) => Some(s.clone()),
        _ => None,
    }
}

fn opt_text_at(p: &Vec<(String, Json)>, name: &str) -> (r: Option<Option<String>>)
    ensures
        r == opt_text(member(p@, name@)),
{
    match get(p, name) {
        None => Some(None),
        Some(Json::Null) => Some(None),
        Some(Json::Str(s)) => Some(Some(s.clone())),
        _ => None,
    }
}

fn opt_flag_at(p: &Vec<(String, Json)>, name: &str) -> (r: Option<Option<bool>>)
    ensures
        r == opt_flag(member(p@, name@)),
{
    match get(p, name) {
        None => Some(None),
        Some(Json::Null) => Some(None),
        Some(Json::Bool(b)) => Some(Some(*b)),
        _ => None,
    }
}

fn opt_text_json(s: Option<String>) -> (j: Json)
    ensures
        opt_text(Some(j)) == Some(s),
{
    match s {
        Some(s) => Json::Str(s),
        None => Json::Null,
    }
}

fn key(s: &str) -> (r: String)
    ensures
        r@ == s@,
{
    s.to_owned()
}

/// What a websocket status payload denotes: `{"status": s}` or a bare string.
pub open spec fn websocket_of(j: Json) -> Option<WebSocket> {
    match j {
        Json::Object(f) => match text_member(f@, "status"@) {
            Some(s) => Some(WebSocket::Status { status: s }),
            None => None,
        },
        Json::Str(s) => Some(WebSocket::Pong(s)),
        _ => None,
    }
}

fn decode_websocket(j: &Json) -> (r: Option<WebSocket>)
    ensures
        r == websocket_of(*j),
{
    match j {
        Json::Object(f) => match text_at(f, "status") {
            Some(s) => Some(WebSocket::Status { status: s }),
            None => None,
        },
        Json::Str(s) => Some(WebSocket::Pong(s.clone())),
        _ => None,
    }
}

fn encode_websocket(w: WebSocket) -> (j: Json)
    ensures
        websocket_of(j) == Some(w),
{
    match w {
        WebSocket::Status { status } => {
            let f = vec![(key("status"), Json::Str(status))];
            assert(member(f@, "status"@) == Some(f@[0].1));
            Json::Object(f)
        },
        WebSocket::Pong(s) => Json::Str(s),
    }
}

/// What a health check payload denotes.
pub open spec fn health_of(j: Json) -> Option<HealthCheck> {
    match j {
        Json::Object(f) => {
            let p = f@;
            match (text_member(p, "service"@), member(p, "healthy"@), opt_text(
                member(p, "tenant"@),
            )) {
                (Some(service), Some(Json::Bool(healthy)), Some(tenant)) => Some(
                    HealthCheck { service, healthy, tenant },
                ),
                _ => None,
            }
        },
        _ => None,
    }
}

fn decode_health(j: &Json) -> (r: Option<HealthCheck>)
    ensures
        r == health_of(*j),
{
    match j {
        Json::Object(f) => match (text_at(f, "service"), get(f, "healthy"), opt_text_at(f, "tenant")) {
            (Some(service), Some(Json::Bool(healthy)), Some(tenant)) => Some(
                HealthCheck { service, healthy: *healthy, tenant },
            ),
            _ => None,
        },
        _ => None,
    }
}

fn encode_health(h: HealthCheck) -> (j: Json)
    ensures
        health_of(j) == Some(h),
{
    let f = vec![
        (key("service"), Json::Str(h.service)),
        (key("healthy"), Json::Bool(h.healthy)),
        (key("tenant"), opt_text_json(h.tenant)),
    ];
    proof {
        reveal_strlit("service");
        reveal_strlit("healthy");
        reveal_strlit("tenant");
        assert("service"@[0] != "healthy"@[0] && "service"@[0] != "tenant"@[0]);
        assert("healthy"@[0] != "tenant"@[0]);
        lemma_member_at(f@, "service"@, 0);
        lemma_member_at(f@, "healthy"@, 1);
        lemma_member_at(f@, "tenant"@, 2);
    }
    Json::Object(f)
}

/// What an extra geometry payload denotes; null stands for none.
pub open spec fn extra_geoms_of(j: Json) -> Option<Option<ExtraGeoms>> {
    match j {
        Json::Null => Some(None),
        Json::Object(f) => match (text_member(f@, "type"@), member(f@, "properties"@)) {
            (Some(kind), Some(Json::Object(q))) => match text_member(q@, "ref"@) {
                Some(reference) => Some(
                    Some(ExtraGeoms { kind, properties: Properties { reference } }),
                ),
                None => None,
            },
            _ => None,
        },
        _ => None,
    }
}

fn decode_extra_geoms(j: &Json) -> (r: Option<Option<ExtraGeoms>>)
    ensures
        r == extra_geoms_of(*j),
{
    match j {
        Json::Null => Some(None),
        Json::Object(f) => match (text_at(f, "type"), get(f, "properties")) {
            (Some(kind), Some(Json::Object(q))) => match text_at(q, "ref") {
                Some(reference) => Some(
                    Some(ExtraGeoms { kind, properties: Properties { reference } }),
                ),
                None => None,
            },
            _ => None,
        },
        _ => None,
    }
}

fn encode_extra_geoms(e: Option<ExtraGeoms>) -> (j: Json)
    ensures
        extra_geoms_of(j) == Some(e),
{
    match e {
        None => Json::Null,
        Some(e) => {
            let q = vec![(key("ref"), Json::Str(e.properties.reference))];
            assert(member(q@, "ref"@) == Some(q@[0].1));
            let f = vec![(key("type"), Json::Str(e.kind)), (key("properties"), Json::Object(q))];
            proof {
                reveal_strlit("type");
                reveal_strlit("properties");
                assert("type"@[0] != "properties"@[0]);
                lemma_member_at(f@, "type"@, 0);
                lemma_member_at(f@, "properties"@, 1);
            }
            Json::Object(f)
        },
    }
}

/// The array holds exactly these strings.
pub open spec fn texts_are(a: Seq<Json>, l: Seq<String>) -> bool {
    &&& a.len() == l.len()
    &&& forall|i: int| 0 <= i < a.len() ==> a[i] == Json::Str(#[trigger] l[i])
}

/// A news message `m` is what `j` denotes.
pub open spec fn news_is(j: Json, m: NewsTickerMessage) -> bool {
    match j {
        Json::Object(f) => {
            &&& text_member(f@, "title"@) == Some(m.title)
            &&& text_member(f@, "content"@) == Some(m.content)
            &&& text_member(f@, "updated"@) == Some(m.updated)
            &&& match member(f@, "lines"@) {
                Some(Json::Array(a)) => texts_are(a@, m.lines@),
                _ => false,
            }
        },
        _ => false,
    }
}

/// `j` denotes some news message.
pub open spec fn news_shape(j: Json) -> bool {
    match j {
        Json::Object(f) => {
            &&& text_member(f@, "title"@) is Some
            &&& text_member(f@, "content"@) is Some
            &&& text_member(f@, "updated"@) is Some
            &&& match member(f@, "lines"@) {
                Some(Json::Array(a)) => forall|i: int| 0 <= i < a@.len() ==> #[trigger] a@[i] is Str,
                _ => false,
            }
        },
        _ => false,
    }
}

/// Two news messages say the same.
pub open spec fn same_news(a: NewsTickerMessage, b: NewsTickerMessage) -> bool {
    &&& a.title == b.title
    &&& a.lines@ == b.lines@
    &&& a.content == b.content
    &&& a.updated == b.updated
}

/// A news ticker `t` is what `j` denotes.
pub open spec fn ticker_is(j: Json, t: SbmNewsTicker) -> bool {
    match j {
        Json::Object(f) => {
            &&& opt_flag(member(f@, "incident_program"@)) == Some(t.incident_program)
            &&& match member(f@, "messages"@) {
                Some(Json::Array(a)) => a@.len() == t.messages@.len() && forall|i: int|
                    0 <= i < a@.len() ==> news_is(#[trigger] a@[i], t.messages@[i]),
                _ => false,
            }
        },
        _ => false,
    }
}

/// `j` denotes some news ticker.
pub open spec fn ticker_shape(j: Json) -> bool {
    match j {
        Json::Object(f) => {
            &&& opt_flag(member(f@, "incident_program"@)) is Some
            &&& match member(f@, "messages"@) {
                Some(Json::Array(a)) => forall|i: int|
                    0 <= i < a@.len() ==> news_shape(#[trigger] a@[i]),
                _ => false,
            }
        },
        _ => false,
    }
}

/// Two news tickers say the same.
pub open spec fn same_ticker(a: SbmNewsTicker, b: SbmNewsTicker) -> bool {
    &&& a.incident_program == b.incident_program
    &&& a.messages@.len() == b.messages@.len()
    &&& forall|i: int|
        0 <= i < a.messages@.len() ==> same_news(#[trigger] a.messages@[i], b.messages@[i])
}

proof fn lemma_news_unique(j: Json, a: NewsTickerMessage, b: NewsTickerMessage)
    requires
        news_is(j, a),
        news_is(j, b),
    ensures
        same_news(a, b),
{
    if let Json::Object(f) = j {
        if let Some(Json::Array(arr)) = member(f@, "lines"@) {
            assert(a.lines@ =~= b.lines@) by {
                assert forall|i: int| 0 <= i < a.lines@.len() implies a.lines@[i] == b.lines@[i] by {
                    assert(arr@[i] == Json::Str(a.lines@[i]));
                    assert(arr@[i] == Json::Str(b.lines@[i]));
                }
            }
        }
    }
}

proof fn lemma_ticker_unique(j: Json, a: SbmNewsTicker, b: SbmNewsTicker)
    requires
        ticker_is(j, a),
        ticker_is(j, b),
    ensures
        same_ticker(a, b),
{
    if let Json::Object(f) = j {
        if let Some(Json::Array(arr)) = member(f@, "messages"@) {
            assert forall|i: int| 0 <= i < a.messages@.len() implies same_news(
                #[trigger] a.messages@[i],
                b.messages@[i],
            ) by {
                lemma_news_unique(arr@[i], a.messages@[i], b.messages@[i]);
            }
        }
    }
}

fn decode_texts(a: &Vec<Json>) -> (r: Option<Vec<String>>)
    ensures
        match r {
            Some(l) => texts_are(a@, l@),
            None => !(forall|i: int| 0 <= i < a@.len() ==> #[trigger] a@[i] is Str),
        },
{
    let mut out: Vec<String> = Vec::new();
    let mut i: usize = 0;
    while i < a.len()
        invariant
            0 <= i <= a@.len(),
            out@.len() == i,
            forall|k: int| 0 <= k < i ==> a@[k] == Json::Str(#[trigger] out@[k]),
        decreases a@.len() - i,
    {
        match &a[i] {
            Json::Str(s) => out.push(s.clone()),
            _ => return None,
        }
        i = i + 1;
    }
    Some(out)
}

fn decode_news(j: &Json) -> (r: Option<NewsTickerMessage>)
    ensures
        match r {
            Some(m) => news_is(*j, m),
            None => !news_shape(*j),
        },
{
    match j {
        Json::Object(f) => {
            let title = match text_at(f, "title") {
                Some(v) => v,
                None => return None,
            };
            let content = match text_at(f, "content") {
                Some(v) => v,
                None => return None,
            };
            let updated = match text_at(f, "updated") {
                Some(v) => v,
                None => return None,
            };
            let lines = match get(f, "lines") {
                Some(Json::Array(a)) => match decode_texts(a) {
                    Some(l) => l,
                    None => return None,
                },
                _ => return None,
            };
            Some(NewsTickerMessage { title, lines, content, updated })
        },
        _ => None,
    }
}

fn encode_news(m: &NewsTickerMessage) -> (j: Json)
    ensures
        news_is(j, *m),
{
    let mut lines: Vec<Json> = Vec::new();
    let mut i: usize = 0;
    while i < m.lines.len()
        invariant
            0 <= i <= m.lines@.len(),
            lines@.len() == i,
            forall|k: int| 0 <= k < i ==> lines@[k] == Json::Str(#[trigger] m.lines@[k]),
        decreases m.lines@.len() - i,
    {
        lines.push(Json::Str(m.lines[i].clone()));
        i = i + 1;
    }
    let f = vec![
        (key("title"), Json::Str(m.title.clone())),
        (key("lines"), Json::Array(lines)),
        (key("content"), Json::Str(m.content.clone())),
        (key("updated"), Json::Str(m.updated.clone())),
    ];
    proof {
        reveal_strlit("title");
        reveal_strlit("lines");
        reveal_strlit("content");
        reveal_strlit("updated");
        assert("title"@[0] != "lines"@[0] && "title"@[0] != "content"@[0] && "title"@[0]
            != "updated"@[0]);
        assert("lines"@[0] != "content"@[0] && "lines"@[0] != "updated"@[0]);
        assert("content"@[0] != "updated"@[0]);
        lemma_member_at(f@, "title"@, 0);
        lemma_member_at(f@, "lines"@, 1);
        lemma_member_at(f@, "content"@, 2);
        lemma_member_at(f@, "updated"@, 3);
    }
    Json::Object(f)
}

fn decode_ticker(j: &Json) -> (r: Option<SbmNewsTicker>)
    ensures
        match r {
            Some(t) => ticker_is(*j, t),
            None => !ticker_shape(*j),
        },
{
    match j {
        Json::Object(f) => {
            let incident_program = match opt_flag_at(f, "incident_program") {
                Some(v) => v,
                None => return None,
            };
            let a = match get(f, "messages") {
                Some(Json::Array(a)) => a,
                _ => return None,
            };
            let mut messages: Vec<NewsTickerMessage> = Vec::new();
            let mut i: usize = 0;
            while i < a.len()
                invariant
                    *j == Json::Object(*f),
                    member(f@, "messages"@) == Some(Json::Array(*a)),
                    opt_flag(member(f@, "incident_program"@)) == Some(incident_program),
                    0 <= i <= a@.len(),
                    messages@.len() == i,
                    forall|k: int| 0 <= k < i ==> news_is(#[trigger] a@[k], messages@[k]),
                decreases a@.len() - i,
            {
                match decode_news(&a[i]) {
                    Some(m) => messages.push(m),
                    None => {
                        let ghost ff = *f;
                        assert(match member(ff@, "messages"@) {
                            Some(Json::Array(b)) => b@ == a@,
                            _ => false,
                        });
                        assert(!ticker_shape(Json::Object(ff)));
                        return None;
                    },
                }
                i = i + 1;
            }
            Some(SbmNewsTicker { incident_program, messages })
        },
        _ => None,
    }
}

fn encode_ticker(t: &SbmNewsTicker) -> (j: Json)
    ensures
        ticker_is(j, *t),
{
    let mut a: Vec<Json> = Vec::new();
    let mut i: usize = 0;
    while i < t.messages.len()
        invariant
            0 <= i <= t.messages@.len(),
            a@.len() == i,
            forall|k: int| 0 <= k < i ==> news_is(#[trigger] a@[k], t.messages@[k]),
        decreases t.messages@.len() - i,
    {
        a.push(encode_news(&t.messages[i]));
        i = i + 1;
    }
    let incident = match t.incident_program {
        Some(b) => Json::Bool(b),
        None => Json::Null,
    };
    let f = vec![(key("incident_program"), incident), (key("messages"), Json::Array(a))];
    proof {
        reveal_strlit("incident_program");
        reveal_strlit("messages");
        assert("incident_program"@[0] != "messages"@[0]);
        lemma_member_at(f@, "incident_program"@, 0);
        lemma_member_at(f@, "messages"@, 1);
    }
    Json::Object(f)
}

/// The tags of the payloads this library reads.
pub open spec fn is_known(t: Seq<char>) -> bool {
    t == "trajectory_schematic"@ ||
        t == "deleted_vehicles_schematic"@ ||
        t == "station_schematic"@ ||
        t == "websocket"@ ||
        t == "extra_geoms"@ ||
        t == "healthcheck"@ ||
        t == "sbm_newsticker"@ ||
        t == "trajectory"@ ||
        t == "deleted_vehicles"@ ||
        t == "station"@
}

/// `c` is what payload `p` denotes under tag `t`.
pub open spec fn content_is(t: Seq<char>, p: Json, c: Content) -> bool {
    if t == "trajectory_schematic"@ {
        c == Content::TrajectorySchematic(p)
    } else if t == "deleted_vehicles_schematic"@ {
        match c {
            Content::DeletedVehiclesSchematic(v) => opt_text(Some(p)) == Some(v),
            _ => false,
        }
    } else if t == "station_schematic"@ {
        c == Content::StationSchematic(p)
    } else if t == "websocket"@ {
        match c {
            Content::Websocket(w) => websocket_of(p) == Some(w),
            _ => false,
        }
    } else if t == "extra_geoms"@ {
        match c {
            Content::ExtraGeoms(e) => extra_geoms_of(p) == Some(e),
            _ => false,
        }
    } else if t == "healthcheck"@ {
        match c {
            Content::Healthcheck(h) => health_of(p) == Some(h),
            _ => false,
        }
    } else if t == "sbm_newsticker"@ {
        match c {
            Content::SbmNewsTicker(n) => ticker_is(p, n),
            _ => false,
        }
    } else if t == "trajectory"@ {
        c == Content::Trajectory(p)
    } else if t == "deleted_vehicles"@ {
        match c {
            Content::DeletedVehicles(v) => opt_text(Some(p)) == Some(v),
            _ => false,
        }
    } else if t == "station"@ {
        c == Content::Station(p)
    } else {
        match c {
            Content::Unrecognized(u, q) => u@ == t && q == p,
            _ => false,
        }
    }
}

/// Payload `p` is well formed for tag `t`; any payload is, for an unknown tag.
pub open spec fn content_shape(t: Seq<char>, p: Json) -> bool {
    if t == "deleted_vehicles_schematic"@ || t == "deleted_vehicles"@ {
        opt_text(Some(p)) is Some
    } else if t == "websocket"@ {
        websocket_of(p) is Some
    } else if t == "extra_geoms"@ {
        extra_geoms_of(p) is Some
    } else if t == "healthcheck"@ {
        health_of(p) is Some
    } else if t == "sbm_newsticker"@ {
        ticker_shape(p)
    } else {
        true
    }
}

/// Two payloads say the same.
pub open spec fn same_content(a: Content, b: Content) -> bool {
    match (a, b) {
        (Content::SbmNewsTicker(x), Content::SbmNewsTicker(y)) => same_ticker(x, y),
        (Content::Unrecognized(u, p), Content::Unrecognized(v, q)) => u@ == v@ && p == q,
        _ => a == b,
    }
}

fn decode_content(t: &str, p: Json) -> (r: Result<Content, ParseError>)
    ensures
        match r {
            Ok(c) => content_is(t@, p, c),
            Err(_) => !content_shape(t@, p),
        },
{
    proof {
        lemma_tags_distinct();
    }
    if str_eq(t, "trajectory_schematic") {
        Ok(Content::TrajectorySchematic(p))
    } else if str_eq(t, "deleted_vehicles_schematic") {
        match p {
            Json::Null => Ok(Content::DeletedVehiclesSchematic(None)),
            Json::Str(s) => Ok(Content::DeletedVehiclesSchematic(Some(s))),
            _ => Err(ParseError { part: "content" }),
        }
    } else if str_eq(t, "station_schematic") {
        Ok(Content::StationSchematic(p))
    } else if str_eq(t, "websocket") {
        match decode_websocket(&p) {
            Some(w) => Ok(Content::Websocket(w)),
            None => Err(ParseError { part: "content" }),
        }
    } else if str_eq(t, "extra_geoms") {
        match decode_extra_geoms(&p) {
            Some(e) => Ok(Content::ExtraGeoms(e)),
            None => Err(ParseError { part: "content" }),
        }
    } else if str_eq(t, "healthcheck") {
        match decode_health(&p) {
            Some(h) => Ok(Content::Healthcheck(h)),
            None => Err(ParseError { part: "content" }),
        }
    } else if str_eq(t, "sbm_newsticker") {
        match decode_ticker(&p) {
            Some(n) => Ok(Content::SbmNewsTicker(n)),
            None => Err(ParseError { part: "content" }),
        }
    } else if str_eq(t, "trajectory") {
        Ok(Content::Trajectory(p))
    } else if str_eq(t, "deleted_vehicles") {
        match p {
            Json::Null => Ok(Content::DeletedVehicles(None)),
            Json::Str(s) => Ok(Content::DeletedVehicles(Some(s))),
            _ => Err(ParseError { part: "content" }),
        }
    } else if str_eq(t, "station") {
        Ok(Content::Station(p))
    } else {
        Ok(Content::Unrecognized(key(t), p))
    }
}

proof fn lemma_tags_distinct()
    ensures
        "trajectory_schematic"@ != "deleted_vehicles_schematic"@,
        "trajectory_schematic"@ != "station_schematic"@,
        "trajectory_schematic"@ != "websocket"@,
        "trajectory_schematic"@ != "extra_geoms"@,
        "trajectory_schematic"@ != "healthcheck"@,
        "trajectory_schematic"@ != "sbm_newsticker"@,
        "trajectory_schematic"@ != "trajectory"@,
        "trajectory_schematic"@ != "deleted_vehicles"@,
        "trajectory_schematic"@ != "station"@,
        "deleted_vehicles_schematic"@ != "station_schematic"@,
        "deleted_vehicles_schematic"@ != "websocket"@,
        "deleted_vehicles_schematic"@ != "extra_geoms"@,
        "deleted_vehicles_schematic"@ != "healthcheck"@,
        "deleted_vehicles_schematic"@ != "sbm_newsticker"@,
        "deleted_vehicles_schematic"@ != "trajectory"@,
        "deleted_vehicles_schematic"@ != "deleted_vehicles"@,
        "deleted_vehicles_schematic"@ != "station"@,
        "station_schematic"@ != "websocket"@,
        "station_schematic"@ != "extra_geoms"@,
        "station_schematic"@ != "healthcheck"@,
        "station_schematic"@ != "sbm_newsticker"@,
        "station_schematic"@ != "trajectory"@,
        "station_schematic"@ != "deleted_vehicles"@,
        "station_schematic"@ != "station"@,
        "websocket"@ != "extra_geoms"@,
        "websocket"@ != "healthcheck"@,
        "websocket"@ != "sbm_newsticker"@,
        "websocket"@ != "trajectory"@,
        "websocket"@ != "deleted_vehicles"@,
        "websocket"@ != "station"@,
        "extra_geoms"@ != "healthcheck"@,
        "extra_geoms"@ != "sbm_newsticker"@,
        "extra_geoms"@ != "trajectory"@,
        "extra_geoms"@ != "deleted_vehicles"@,
        "extra_geoms"@ != "station"@,
        "healthcheck"@ != "sbm_newsticker"@,
        "healthcheck"@ != "trajectory"@,
        "healthcheck"@ != "deleted_vehicles"@,
        "healthcheck"@ != "station"@,
        "sbm_newsticker"@ != "trajectory"@,
        "sbm_newsticker"@ != "deleted_vehicles"@,
        "sbm_newsticker"@ != "station"@,
        "trajectory"@ != "deleted_vehicles"@,
        "trajectory"@ != "station"@,
        "deleted_vehicles"@ != "station"@,
{
    reveal_strlit("trajectory_schematic");
    reveal_strlit("deleted_vehicles_schematic");
    reveal_strlit("station_schematic");
    reveal_strlit("websocket");
    reveal_strlit("extra_geoms");
    reveal_strlit("healthcheck");
    reveal_strlit("sbm_newsticker");
    reveal_strlit("trajectory");
    reveal_strlit("deleted_vehicles");
    reveal_strlit("station");
    assert("trajectory_schematic"@ != "deleted_vehicles_schematic"@) by { assert("trajectory_schematic"@.len() != "deleted_vehicles_schematic"@.len()); }
    assert("trajectory_schematic"@ != "station_schematic"@) by { assert("trajectory_schematic"@.len() != "station_schematic"@.len()); }
    assert("trajectory_schematic"@ != "websocket"@) by { assert("trajectory_schematic"@.len() != "websocket"@.len()); }
    assert("trajectory_schematic"@ != "extra_geoms"@) by { assert("trajectory_schematic"@.len() != "extra_geoms"@.len()); }
    assert("trajectory_schematic"@ != "healthcheck"@) by { assert("trajectory_schematic"@.len() != "healthcheck"@.len()); }
    assert("trajectory_schematic"@ != "sbm_newsticker"@) by { assert("trajectory_schematic"@.len() != "sbm_newsticker"@.len()); }
    assert("trajectory_schematic"@ != "trajectory"@) by { assert("trajectory_schematic"@.len() != "trajectory"@.len()); }
    assert("trajectory_schematic"@ != "deleted_vehicles"@) by { assert("trajectory_schematic"@.len() != "deleted_vehicles"@.len()); }
    assert("trajectory_schematic"@ != "station"@) by { assert("trajectory_schematic"@.len() != "station"@.len()); }
    assert("deleted_vehicles_schematic"@ != "station_schematic"@) by { assert("deleted_vehicles_schematic"@.len() != "station_schematic"@.len()); }
    assert("deleted_vehicles_schematic"@ != "websocket"@) by { assert("deleted_vehicles_schematic"@.len() != "websocket"@.len()); }
    assert("deleted_vehicles_schematic"@ != "extra_geoms"@) by { assert("deleted_vehicles_schematic"@.len() != "extra_geoms"@.len()); }
    assert("deleted_vehicles_schematic"@ != "healthcheck"@) by { assert("deleted_vehicles_schematic"@.len() != "healthcheck"@.len()); }
    assert("deleted_vehicles_schematic"@ != "sbm_newsticker"@) by { assert("deleted_vehicles_schematic"@.len() != "sbm_newsticker"@.len()); }
    assert("deleted_vehicles_schematic"@ != "trajectory"@) by { assert("deleted_vehicles_schematic"@.len() != "trajectory"@.len()); }
    assert("deleted_vehicles_schematic"@ != "deleted_vehicles"@) by { assert("deleted_vehicles_schematic"@.len() != "deleted_vehicles"@.len()); }
    assert("deleted_vehicles_schematic"@ != "station"@) by { assert("deleted_vehicles_schematic"@.len() != "station"@.len()); }
    assert("station_schematic"@ != "websocket"@) by { assert("station_schematic"@.len() != "websocket"@.len()); }
    assert("station_schematic"@ != "extra_geoms"@) by { assert("station_schematic"@.len() != "extra_geoms"@.len()); }
    assert("station_schematic"@ != "healthcheck"@) by { assert("station_schematic"@.len() != "healthcheck"@.len()); }
    assert("station_schematic"@ != "sbm_newsticker"@) by { assert("station_schematic"@.len() != "sbm_newsticker"@.len()); }
    assert("station_schematic"@ != "trajectory"@) by { assert("station_schematic"@.len() != "trajectory"@.len()); }
    assert("station_schematic"@ != "deleted_vehicles"@) by { assert("station_schematic"@.len() != "deleted_vehicles"@.len()); }
    assert("station_schematic"@ != "station"@) by { assert("station_schematic"@.len() != "station"@.len()); }
    assert("websocket"@ != "extra_geoms"@) by { assert("websocket"@.len() != "extra_geoms"@.len()); }
    assert("websocket"@ != "healthcheck"@) by { assert("websocket"@.len() != "healthcheck"@.len()); }
    assert("websocket"@ != "sbm_newsticker"@) by { assert("websocket"@.len() != "sbm_newsticker"@.len()); }
    assert("websocket"@ != "trajectory"@) by { assert("websocket"@.len() != "trajectory"@.len()); }
    assert("websocket"@ != "deleted_vehicles"@) by { assert("websocket"@.len() != "deleted_vehicles"@.len()); }
    assert("websocket"@ != "station"@) by { assert("websocket"@.len() != "station"@.len()); }
    assert("extra_geoms"@ != "healthcheck"@) by { assert("extra_geoms"@[0] != "healthcheck"@[0]); }
    assert("extra_geoms"@ != "sbm_newsticker"@) by { assert("extra_geoms"@.len() != "sbm_newsticker"@.len()); }
    assert("extra_geoms"@ != "trajectory"@) by { assert("extra_geoms"@.len() != "trajectory"@.len()); }
    assert("extra_geoms"@ != "deleted_vehicles"@) by { assert("extra_geoms"@.len() != "deleted_vehicles"@.len()); }
    assert("extra_geoms"@ != "station"@) by { assert("extra_geoms"@.len() != "station"@.len()); }
    assert("healthcheck"@ != "sbm_newsticker"@) by { assert("healthcheck"@.len() != "sbm_newsticker"@.len()); }
    assert("healthcheck"@ != "trajectory"@) by { assert("healthcheck"@.len() != "trajectory"@.len()); }
    assert("healthcheck"@ != "deleted_vehicles"@) by { assert("healthcheck"@.len() != "deleted_vehicles"@.len()); }
    assert("healthcheck"@ != "station"@) by { assert("healthcheck"@.len() != "station"@.len()); }
    assert("sbm_newsticker"@ != "trajectory"@) by { assert("sbm_newsticker"@.len() != "trajectory"@.len()); }
    assert("sbm_newsticker"@ != "deleted_vehicles"@) by { assert("sbm_newsticker"@.len() != "deleted_vehicles"@.len()); }
    assert("sbm_newsticker"@ != "station"@) by { assert("sbm_newsticker"@.len() != "station"@.len()); }
    assert("trajectory"@ != "deleted_vehicles"@) by { assert("trajectory"@.len() != "deleted_vehicles"@.len()); }
    assert("trajectory"@ != "station"@) by { assert("trajectory"@.len() != "station"@.len()); }
    assert("deleted_vehicles"@ != "station"@) by { assert("deleted_vehicles"@.len() != "station"@.len()); }
}

/// Encodes a payload with its tag.
fn encode_content(c: Content) -> (r: (String, Json))
    ensures
        !(c matches Content::Unrecognized(u, _) && is_known(u@)) ==> content_is(r.0@, r.1, c),
{
    proof {
        lemma_tags_distinct();
    }
    match c {
        Content::TrajectorySchematic(p) => (key("trajectory_schematic"), p),
        Content::DeletedVehiclesSchematic(v) => (key("deleted_vehicles_schematic"), opt_text_json(v)),
        Content::StationSchematic(p) => (key("station_schematic"), p),
        Content::Websocket(w) => (key("websocket"), encode_websocket(w)),
        Content::ExtraGeoms(e) => (key("extra_geoms"), encode_extra_geoms(e)),
        Content::Healthcheck(h) => (key("healthcheck"), encode_health(h)),
        Content::SbmNewsTicker(n) => (key("sbm_newsticker"), encode_ticker(&n)),
        Content::Trajectory(p) => (key("trajectory"), p),
        Content::DeletedVehicles(v) => (key("deleted_vehicles"), opt_text_json(v)),
        Content::Station(p) => (key("station"), p),
        Content::Unrecognized(u, p) => (u, p),
    }
}

/// The payload member; absent counts as null.
pub open spec fn payload_of(f: Seq<(String, Json)>) -> Json {
    match member(f, "content"@) {
        Some(v) => v,
        None => Json::Null,
    }
}

/// The client reference: absent and null give none; the outer `None`
/// marks a value that is no `i8`.
pub open spec fn client_reference_of(f: Seq<(String, Json)>) -> Option<Option<i8>> {
    match member(f, "client_reference"@) {
        None => Some(None),
        Some(Json::Null) => Some(None),
        Some(Json::Num(Number::Int(i))) => if -128 <= i <= 127 {
            Some(Some(i as i8))
        } else {
            None
        },
        _ => None,
    }
}

/// Message `m` is what document `j` denotes.
pub open spec fn message_is(j: Json, m: ResponseMessage) -> bool {
    match j {
        Json::Object(f) => match (text_member(f@, "source"@), member(f@, "timestamp"@)) {
            (Some(t), Some(Json::Num(n))) => {
                &&& m.timestamp == n
                &&& client_reference_of(f@) == Some(m.client_reference)
                &&& content_is(t@, payload_of(f@), m.content)
            },
            _ => false,
        },
        _ => false,
    }
}

/// Document `j` denotes some message.
pub open spec fn message_shape(j: Json) -> bool {
    match j {
        Json::Object(f) => match (text_member(f@, "source"@), member(f@, "timestamp"@)) {
            (Some(t), Some(Json::Num(_))) => {
                &&& client_reference_of(f@) is Some
                &&& content_shape(t@, payload_of(f@))
            },
            _ => false,
        },
        _ => false,
    }
}

/// Two messages say the same.
pub open spec fn same_message(a: ResponseMessage, b: ResponseMessage) -> bool {
    &&& a.timestamp == b.timestamp
    &&& a.client_reference == b.client_reference
    &&& same_content(a.content, b.content)
}

/// A message this library can write: an unrecognized payload does not carry
/// a known tag.
pub open spec fn encodable(m: ResponseMessage) -> bool {
    match m.content {
        Content::Unrecognized(u, _) => !is_known(u@),
        _ => true,
    }
}

fn client_reference_at(f: &Vec<(String, Json)>) -> (r: Option<Option<i8>>)
    ensures
        r == client_reference_of(f@),
{
    match get(f, "client_reference") {
        None => Some(None),
        Some(Json::Null) => Some(None),
        Some(Json::Num(Number::Int(i))) => if -128 <= *i && *i <= 127 {
            Some(Some(*i as i8))
        } else {
            None
        },
        _ => None,
    }
}

/// Reads a feed message from its JSON document. A tag this library does not
/// know gives an unrecognized payload, not an error.
pub fn decode_message(j: Json) -> (r: Result<ResponseMessage, ParseError>)
    ensures
        match r {
            Ok(m) => message_is(j, m),
            Err(_) => !message_shape(j),
        },
{
    let mut f = match j {
        Json::Object(f) => f,
        _ => return Err(ParseError { part: "message" }),
    };
    let ghost f0 = f@;
    let source = match text_at(&f, "source") {
        Some(s) => s,
        None => return Err(ParseError { part: "source" }),
    };
    let timestamp = match get(&f, "timestamp") {
        Some(Json::Num(n)) => n.copy(),
        _ => return Err(ParseError { part: "timestamp" }),
    };
    let client_reference = match client_reference_at(&f) {
        Some(c) => c,
        None => return Err(ParseError { part: "client_reference" }),
    };
    let payload = match index_of(&f, "content") {
        Some(i) => f.swap_remove(i).1,
        None => Json::Null,
    };
    assert(payload == payload_of(f0));
    match decode_content(source.as_str(), payload) {
        Ok(content) => Ok(ResponseMessage { content, timestamp, client_reference }),
        Err(e) => Err(e),
    }
}

/// Writes a feed message as a JSON document.
pub fn encode_message(m: ResponseMessage) -> (j: Json)
    ensures
        encodable(m) ==> message_is(j, m),
{
    let (t, p) = encode_content(m.content);
    let client = match m.client_reference {
        Some(i) => Json::Num(Number::Int(i as i64)),
        None => Json::Null,
    };
    let f = vec![
        (key("source"), Json::Str(t)),
        (key("content"), p),
        (key("timestamp"), Json::Num(m.timestamp)),
        (key("client_reference"), client),
    ];
    proof {
        reveal_strlit("source");
        reveal_strlit("content");
        reveal_strlit("timestamp");
        reveal_strlit("client_reference");
        assert("source"@[0] != "content"@[0] && "source"@[0] != "timestamp"@[0] && "source"@[0]
            != "client_reference"@[0]);
        assert("content"@[0] != "timestamp"@[0] && "content"@.len() != "client_reference"@.len());
        assert("timestamp"@[0] != "client_reference"@[0]);
        lemma_member_at(f@, "source"@, 0);
        lemma_member_at(f@, "content"@, 1);
        lemma_member_at(f@, "timestamp"@, 2);
        lemma_member_at(f@, "client_reference"@, 3);
    }
    Json::Object(f)
}

proof fn lemma_news_shape(j: Json, m: NewsTickerMessage)
    requires
        news_is(j, m),
    ensures
        news_shape(j),
{
    if let Json::Object(f) = j {
        if let Some(Json::Array(a)) = member(f@, "lines"@) {
            assert forall|i: int| 0 <= i < a@.len() implies #[trigger] a@[i] is Str by {
                assert(a@[i] == Json::Str(m.lines@[i]));
            }
        }
    }
}

proof fn lemma_ticker_shape(j: Json, t: SbmNewsTicker)
    requires
        ticker_is(j, t),
    ensures
        ticker_shape(j),
{
    if let Json::Object(f) = j {
        if let Some(Json::Array(a)) = member(f@, "messages"@) {
            assert forall|i: int| 0 <= i < a@.len() implies news_shape(#[trigger] a@[i]) by {
                lemma_news_shape(a@[i], t.messages@[i]);
            }
        }
    }
}

/// A document denotes at most one message, and a document that denotes one
/// decodes. With the contracts of `encode_message` and `decode_message`:
/// encoding a message and decoding the result gives the same message back.
pub proof fn lemma_round_trip(j: Json, m: ResponseMessage, d: ResponseMessage)
    requires
        message_is(j, m),
        message_is(j, d),
    ensures
        message_shape(j),
        same_message(m, d),
{
    lemma_tags_distinct();
    if let Json::Object(f) = j {
        if let Some(t) = text_member(f@, "source"@) {
            let p = payload_of(f@);
            if t@ == "sbm_newsticker"@ {
                if let (Content::SbmNewsTicker(x), Content::SbmNewsTicker(y)) = (m.content, d.content) {
                    lemma_ticker_unique(p, x, y);
                    lemma_ticker_shape(p, x);
                }
            }
        }
    }
}

/// A well-formed document whose tag is unknown decodes to an unrecognized
/// payload that keeps the tag and the payload.
pub proof fn lemma_unknown_tag(j: Json, t: String)
    requires
        j matches Json::Object(f) && text_member(f@, "source"@) == Some(t),
        !is_known(t@),
    ensures
        message_shape(j) <== (match j {
            Json::Object(f) => member(f@, "timestamp"@) matches Some(Json::Num(_))
                && client_reference_of(f@) is Some,
            _ => false,
        }),
        forall|m: ResponseMessage|
            message_is(j, m) ==> match #[trigger] m.content {
                Content::Unrecognized(u, q) => u@ == t@ && q == payload_of(j->Object_0@),
                _ => false,
            },
{
}

/// The tags whose payload is a GeoJSON document.
pub open spec fn is_geometry_tag(t: Seq<char>) -> bool {
    t == "trajectory_schematic"@ || t == "station_schematic"@ || t == "trajectory"@ || t
        == "station"@
}

/// A document refused because its tag asks for GeoJSON and its payload is none.
pub open spec fn geometry_refused(j: Json, payload_is_geojson: bool) -> bool {
    &&& !payload_is_geojson
    &&& match j {
        Json::Object(f) => match text_member(f@, "source"@) {
            Some(t) => is_geometry_tag(t@),
            None => false,
        },
        _ => false,
    }
}

/// Document `j` is taken as a message: it denotes one, and a GeoJSON
/// payload is valid GeoJSON.
pub open spec fn accepted(j: Json, payload_is_geojson: bool) -> bool {
    message_shape(j) && !geometry_refused(j, payload_is_geojson)
}

/// Reads a feed message, given whether its payload parsed as GeoJSON; a
/// geometry payload that did not is refused.
pub fn decode_checked(j: Json, payload_is_geojson: bool) -> (r: Result<ResponseMessage, ParseError>)
    ensures
        match r {
            Ok(m) => message_is(j, m) && !geometry_refused(j, payload_is_geojson),
            Err(_) => !accepted(j, payload_is_geojson),
        },
{
    if !payload_is_geojson {
        let refused = match &j {
            Json::Object(f) => match get(f, "source") {
                Some(Json::Str(t)) => {
                    let t = t.as_str();
                    str_eq(t, "trajectory_schematic") || str_eq(t, "station_schematic") || str_eq(
                        t,
                        "trajectory",
                    ) || str_eq(t, "station")
                },
                _ => false,
            },
            _ => false,
        };
        if refused {
            return Err(ParseError { part: "content" });
        }
    }
    decode_message(j)
}

} // verus!
