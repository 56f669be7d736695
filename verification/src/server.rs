//! What a scraper is answered.
//!
//! Only `GET /metrics` is a scrape; every other request is shown a landing
//! page. A scrape succeeds whether the node is up or down, and it fails, with
//! nothing said of the cause, where the coordinator itself is broken.

use vstd::prelude::*;
use vstd::string::StringExecFns;

use crate::exposition::{
    down_gauges, funds_fit, metrics_gauges, prometheus_format, prometheus_format_down, Gauge,
    GaugeView,
};
use crate::producer::{Error, Outcome};
use crate::text::same_text;

verus! {

/// What a request is answered with.
#[derive(Debug, Clone, Copy, PartialEq, Eq, Structural)]
pub enum Route {
    /// The metrics of the node.
    Metrics,
    /// The page that points to the metrics.
    Landing,
}

/// What a reply carries.
#[derive(Debug, PartialEq, Eq)]
pub enum Body {
    /// Gauges, to be written in the text exposition format.
    Gauges(Vec<Gauge>),
    /// A text, to be sent as it is.
    Text(String),
}

/// A reply, ready to be sent.
#[derive(Debug, PartialEq, Eq)]
pub struct Reply {
    pub status: u16,
    pub content_type: String,
    pub body: Body,
}

/// What a [`Body`] says.
pub enum BodyView {
    Gauges(Seq<GaugeView>),
    Text(Seq<char>),
}

/// What a [`Reply`] says.
pub struct ReplyView {
    pub status: u16,
    pub content_type: Seq<char>,
    pub body: BodyView,
}

impl View for Body {
    type V = BodyView;

    open spec fn view(&self) -> BodyView {
        match self {
            Body::Gauges(gauges) => BodyView::Gauges(gauges.deep_view()),
            Body::Text(text) => BodyView::Text(text@),
        }
    }
}

impl View for Reply {
    type V = ReplyView;

    open spec fn view(&self) -> ReplyView {
        ReplyView { status: self.status, content_type: self.content_type@, body: self.body@ }
    }
}

/// The route of a request: the metrics for `GET /metrics`, the landing page
/// for everything else.
pub open spec fn route_of(method: Seq<char>, path: Seq<char>) -> Route {
    if method == "GET"@ && path == "/metrics"@ {
        Route::Metrics
    } else {
        Route::Landing
    }
}

/// The landing page.
pub open spec fn landing_page() -> Seq<char> {
    "<html><head><title>c-lightning exporter</title></head><body><h1>c-lightning exporter</h1><p><a href=\"/metrics\">Metrics</a></p></body></html>"@
}

/// The reply to a scrape, for what the coordinator gave: the node's gauges
/// where it answered, the gauge that says it is down where it did not, both
/// as a success; and a bare server error where the coordinator failed.
pub open spec fn metrics_reply(outcome: Outcome) -> ReplyView {
    match outcome {
        Ok(metrics) => ReplyView {
            status: 200,
            content_type: "text/plain"@,
            body: BodyView::Gauges(metrics_gauges(metrics)),
        },
        Err(Error::RpcError) => ReplyView {
            status: 200,
            content_type: "text/plain"@,
            body: BodyView::Gauges(down_gauges()),
        },
        Err(Error::FatalError) => ReplyView {
            status: 500,
            content_type: "text/plain"@,
            body: BodyView::Text("Internal server error"@),
        },
    }
}

/// Picks the route of a request from its method and the path of its URI.
pub fn route(method: &str, path: &str) -> (r: Route)
    ensures
        r == route_of(method@, path@),
{
    if same_text(method, "GET") && same_text(path, "/metrics") {
        Route::Metrics
    } else {
        Route::Landing
    }
}

/// The reply that shows the landing page.
pub fn handle_request_landing() -> (reply: Reply)
    ensures
        reply@ == (ReplyView {
            status: 200,
            content_type: "text/html; charset=utf-8"@,
            body: BodyView::Text(landing_page()),
        }),
{
    let page = "<html><head><title>c-lightning exporter</title></head><body><h1>c-lightning exporter</h1><p><a href=\"/metrics\">Metrics</a></p></body></html>";
    Reply {
        status: 200,
        content_type: String::from_str("text/html; charset=utf-8"),
        body: Body::Text(String::from_str(page)),
    }
}

/// The reply to a scrape, for what the coordinator gave.
pub fn handle_request_metrics(outcome: Outcome) -> (reply: Reply)
    requires
        outcome matches Ok(metrics) ==> funds_fit(metrics),
    ensures
        reply@ == metrics_reply(outcome),
{
    match outcome {
        Ok(r) => Reply {
            status: 200,
            content_type: String::from_str("text/plain"),
            body: Body::Gauges(prometheus_format(r)),
        },
        Err(Error::RpcError) => Reply {
            status: 200,
            content_type: String::from_str("text/plain"),
            body: Body::Gauges(prometheus_format_down()),
        },
        Err(Error::FatalError) => Reply {
            status: 500,
            content_type: String::from_str("text/plain"),
            body: Body::Text(String::from_str("Internal server error")),
        },
    }
}

} // verus!
