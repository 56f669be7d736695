use prometheus_clightning_exporter::exposition::{prometheus_format, prometheus_format_down};
use prometheus_clightning_exporter::producer::{Error, LightningMetrics};
use prometheus_clightning_exporter::responses::{GetInfo, ListFunds, ListFundsOutput};
use prometheus_clightning_exporter::server::{
    handle_request_landing, handle_request_metrics, route, Body, Route,
};

fn sample() -> LightningMetrics {
    LightningMetrics {
        getinfo: GetInfo {
            id: "02ab".to_string(),
            alias: "node".to_string(),
            color: "00ff00".to_string(),
            version: "v0.9.1".to_string(),
            blockheight: 1,
            fees_collected_msat: 2,
            network: "regtest".to_string(),
        },
        listfunds: ListFunds {
            outputs: vec![ListFundsOutput { amount_msat: 3000 }],
            channels: Vec::new(),
        },
        listpeers: Vec::new(),
        num_nodes: 0,
        num_channels: 0,
    }
}

#[test]
fn only_get_metrics_is_a_scrape() {
    assert_eq!(route("GET", "/metrics"), Route::Metrics);
    assert_eq!(route("GET", "/"), Route::Landing);
    assert_eq!(route("GET", "/metrics/"), Route::Landing);
    assert_eq!(route("GET", "/metric"), Route::Landing);
    assert_eq!(route("GET", ""), Route::Landing);
    assert_eq!(route("POST", "/metrics"), Route::Landing);
    assert_eq!(route("get", "/metrics"), Route::Landing);
    assert_eq!(route("", "/metrics"), Route::Landing);
}

#[test]
fn the_landing_page_points_to_the_metrics() {
    let reply = handle_request_landing();
    assert_eq!(reply.status, 200);
    assert_eq!(reply.content_type, "text/html; charset=utf-8");
    assert_eq!(
        reply.body,
        Body::Text(
            "<html><head><title>c-lightning exporter</title></head><body>\
             <h1>c-lightning exporter</h1><p><a href=\"/metrics\">Metrics</a></p>\
             </body></html>"
                .to_string()
        )
    );
}

#[test]
fn a_node_that_answered_is_a_success() {
    let reply = handle_request_metrics(Ok(sample()));
    assert_eq!(reply.status, 200);
    assert_eq!(reply.content_type, "text/plain");
    assert_eq!(reply.body, Body::Gauges(prometheus_format(sample())));
}

#[test]
fn a_node_that_is_down_is_a_success_too() {
    let reply = handle_request_metrics(Err(Error::RpcError));
    assert_eq!(reply.status, 200);
    assert_eq!(reply.content_type, "text/plain");
    assert_eq!(reply.body, Body::Gauges(prometheus_format_down()));
}

#[test]
fn a_broken_coordinator_is_a_server_error_without_detail() {
    let reply = handle_request_metrics(Err(Error::FatalError));
    assert_eq!(reply.status, 500);
    assert_eq!(reply.content_type, "text/plain");
    assert_eq!(reply.body, Body::Text("Internal server error".to_string()));
}
