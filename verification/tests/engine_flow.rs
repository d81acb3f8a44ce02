//! End-to-end request flows: routing, plugin chains, upstream
//! selection, and hot snapshot swaps.

use agw_core::config::{Cluster, ConfigSnapshot, Endpoint, PluginRef, Route};
use agw_core::engine::{
    filter_begin, filter_on_verdict, upstream_failure_status, upstream_peer,
    verdict_from_invocation, FilterStep, PluginVerdict, UpstreamDecision,
};
use agw_core::plugins::DenyAllPlugin;
use agw_core::store::SnapshotStore;

fn endpoint(address: &str, port: u16) -> Endpoint {
    Endpoint { address: address.to_string(), port }
}

fn cluster(name: &str, endpoints: Vec<Endpoint>) -> Cluster {
    Cluster { name: name.to_string(), endpoints }
}

fn route(prefix: &str, cluster_id: &str, plugins: Vec<PluginRef>) -> Route {
    Route {
        path_prefix: prefix.to_string(),
        cluster_id: cluster_id.to_string(),
        plugins,
    }
}

fn base_snapshot() -> ConfigSnapshot {
    ConfigSnapshot {
        version_id: "v1".to_string(),
        listeners: vec![agw_core::config::Listener {
            name: "main".to_string(),
            address: "0.0.0.0".to_string(),
            port: 8080,
            tls: None,
        }],
        routes: vec![route("/api", "svcA", vec![])],
        clusters: vec![cluster("svcA", vec![endpoint("10.0.0.1", 9000)])],
    }
}

#[test]
fn plain_route_is_forwarded_to_first_endpoint() {
    let snap = base_snapshot();
    assert_eq!(filter_begin(&snap, "/api/x"), FilterStep::Forward { route: 0 });
    let target = upstream_peer(&snap, "/api/x");
    assert_eq!(
        target,
        UpstreamDecision::Target { address: "10.0.0.1".to_string(), port: 9000 }
    );
    assert_eq!(upstream_failure_status(&target), None);
}

#[test]
fn unmatched_path_gets_404_and_no_forwarding() {
    let snap = base_snapshot();
    assert_eq!(filter_begin(&snap, "/other"), FilterStep::Respond { status: 404 });
}

#[test]
fn deny_all_plugin_gets_403() {
    let mut snap = base_snapshot();
    snap.routes[0].plugins.push(PluginRef {
        name: "deny-all".to_string(),
        wasm_path: "/plugins/deny_all.wasm".to_string(),
    });
    let step = filter_begin(&snap, "/api/x");
    assert_eq!(step, FilterStep::RunPlugin { route: 0, plugin: 0 });
    let headers: Vec<(String, String)> = vec![];
    let allow = DenyAllPlugin::handle_request(&headers);
    assert!(!allow);
    let verdict = verdict_from_invocation(&Ok(allow));
    assert_eq!(verdict, PluginVerdict::Deny);
    let next = filter_on_verdict(&snap, 0, 0, verdict);
    assert_eq!(next, FilterStep::Respond { status: 403 });
}

#[test]
fn failed_invocation_maps_to_an_error_step() {
    let outcome: Result<bool, String> = Err("trap".to_string());
    assert_eq!(verdict_from_invocation(&outcome), PluginVerdict::Error);
    assert_eq!(verdict_from_invocation(&Ok(true)), PluginVerdict::Allow);
}

#[test]
fn plugin_error_gets_500() {
    let mut snap = base_snapshot();
    snap.routes[0].plugins.push(PluginRef {
        name: "broken".to_string(),
        wasm_path: "/plugins/missing.wasm".to_string(),
    });
    let next = filter_on_verdict(&snap, 0, 0, PluginVerdict::Error);
    assert_eq!(next, FilterStep::Respond { status: 500 });
}

#[test]
fn allow_walks_the_chain_in_order_then_forwards() {
    let mut snap = base_snapshot();
    for name in ["p1", "p2"] {
        snap.routes[0].plugins.push(PluginRef {
            name: name.to_string(),
            wasm_path: format!("/plugins/{}.wasm", name),
        });
    }
    assert_eq!(filter_begin(&snap, "/api/x"), FilterStep::RunPlugin { route: 0, plugin: 0 });
    assert_eq!(
        filter_on_verdict(&snap, 0, 0, PluginVerdict::Allow),
        FilterStep::RunPlugin { route: 0, plugin: 1 }
    );
    assert_eq!(
        filter_on_verdict(&snap, 0, 1, PluginVerdict::Allow),
        FilterStep::Forward { route: 0 }
    );
}

#[test]
fn first_matching_route_wins_in_snapshot_order() {
    let mut snap = base_snapshot();
    snap.routes = vec![
        route("/api/v2", "svcB", vec![]),
        route("/api", "svcA", vec![]),
    ];
    snap.clusters.push(cluster("svcB", vec![endpoint("10.0.0.2", 9100)]));
    assert_eq!(filter_begin(&snap, "/api/v2/x"), FilterStep::Forward { route: 0 });
    assert_eq!(filter_begin(&snap, "/api/x"), FilterStep::Forward { route: 1 });
    assert_eq!(
        upstream_peer(&snap, "/api/v2/x"),
        UpstreamDecision::Target { address: "10.0.0.2".to_string(), port: 9100 }
    );
}

#[test]
fn missing_cluster_is_502() {
    let mut snap = base_snapshot();
    snap.routes = vec![route("/api", "ghost", vec![])];
    let d = upstream_peer(&snap, "/api/x");
    assert_eq!(d, UpstreamDecision::ClusterMiss);
    assert_eq!(upstream_failure_status(&d), Some(502));
}

#[test]
fn route_miss_at_upstream_stage_is_502() {
    let snap = base_snapshot();
    let d = upstream_peer(&snap, "/elsewhere");
    assert_eq!(d, UpstreamDecision::RouteMiss);
    assert_eq!(upstream_failure_status(&d), Some(502));
}

#[test]
fn empty_endpoint_list_is_503() {
    let mut snap = base_snapshot();
    snap.clusters = vec![cluster("svcA", vec![])];
    let d = upstream_peer(&snap, "/api/x");
    assert_eq!(d, UpstreamDecision::NoEndpoint);
    assert_eq!(upstream_failure_status(&d), Some(503));
}

#[test]
fn empty_route_table_404s_every_request() {
    let mut snap = base_snapshot();
    snap.routes = vec![];
    assert_eq!(filter_begin(&snap, "/api/x"), FilterStep::Respond { status: 404 });
    assert_eq!(filter_begin(&snap, "/"), FilterStep::Respond { status: 404 });
}

#[test]
fn snapshot_swap_mid_stream_redirects_new_requests() {
    let v1 = base_snapshot();
    let mut store = SnapshotStore::new(v1);
    assert_eq!(
        upstream_peer(store.load(), "/api/x"),
        UpstreamDecision::Target { address: "10.0.0.1".to_string(), port: 9000 }
    );

    let mut v2 = base_snapshot();
    v2.version_id = "v2".to_string();
    v2.routes = vec![route("/api", "svcB", vec![])];
    v2.clusters.push(cluster("svcB", vec![endpoint("10.0.0.9", 9900)]));
    assert!(store.apply_update(v2));
    assert_eq!(
        upstream_peer(store.load(), "/api/x"),
        UpstreamDecision::Target { address: "10.0.0.9".to_string(), port: 9900 }
    );
}

#[test]
fn invalid_update_is_dropped_and_old_snapshot_stays_in_force() {
    let v1 = base_snapshot();
    let mut store = SnapshotStore::new(v1);
    let mut bad = base_snapshot();
    bad.version_id = "v2".to_string();
    bad.routes = vec![route("/api", "no-such-cluster", vec![])];
    bad.clusters = vec![];
    assert!(!store.apply_update(bad));
    assert_eq!(
        upstream_peer(store.load(), "/api/x"),
        UpstreamDecision::Target { address: "10.0.0.1".to_string(), port: 9000 }
    );
}

#[test]
fn republishing_the_same_version_changes_no_decision() {
    let v1 = base_snapshot();
    let mut store = SnapshotStore::new(v1.clone());
    let before = filter_begin(store.load(), "/api/x");
    store.store(v1);
    let after = filter_begin(store.load(), "/api/x");
    assert_eq!(before, after);
}
