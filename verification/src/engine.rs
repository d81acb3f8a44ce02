//! Per-request decisions of the proxy engine.
//!
//! The surrounding proxy framework calls in twice per request: once
//! with the request head (may the request proceed, or is a response
//! written directly?), and once to pick the upstream peer. Both
//! decisions are functions of the loaded snapshot and the request, and
//! both are made here. Plugin modules run outside the verified core;
//! the engine hands the driver one instruction at a time (`FilterStep`)
//! and consumes the verdict of each plugin invocation.

use vstd::prelude::*;

use crate::config::Cluster;
use crate::config::ConfigSnapshot;
use crate::config::Route;
use crate::text::is_prefix_of;
use crate::text::str_eq;
use crate::text::str_starts_with;

verus! {

/// Status written when a plugin denies the request.
pub const STATUS_FORBIDDEN: u16 = 403;

/// Status written when no route prefix-matches the request path.
pub const STATUS_NOT_FOUND: u16 = 404;

/// Status written when a plugin invocation fails (trap, load failure,
/// malformed module).
pub const STATUS_PLUGIN_FAILURE: u16 = 500;

/// Status raised when upstream selection finds no route or no cluster.
pub const STATUS_BAD_GATEWAY: u16 = 502;

/// Status raised when the selected cluster has no endpoint.
pub const STATUS_SERVICE_UNAVAILABLE: u16 = 503;

/// Route `r` matches the request path: its prefix is an initial
/// segment of the path.
pub open spec fn route_matches(r: Route, path: Seq<char>) -> bool {
    is_prefix_of(r.path_prefix@, path)
}

/// Index of the first route that matches the path, scanning in
/// snapshot order (authoring order is canonical).
pub open spec fn spec_match_route(routes: Seq<Route>, path: Seq<char>) -> Option<int>
    decreases routes.len(),
{
    if routes.len() <= 0 {
        None
    } else if route_matches(routes[0], path) {
        Some(0int)
    } else {
        match spec_match_route(routes.skip(1), path) {
            Some(i) => Some(i + 1),
            None => None,
        }
    }
}

/// Skipping routes that do not match leaves the first match where it
/// was: scanning the whole table equals scanning the tail, offset by
/// the skipped count.
proof fn lemma_match_route_skip(routes: Seq<Route>, path: Seq<char>, i: int)
    requires
        0 <= i <= routes.len(),
        forall|j: int| 0 <= j < i ==> !route_matches(#[trigger] routes[j], path),
    ensures
        spec_match_route(routes, path) == match spec_match_route(routes.skip(i), path) {
            Some(k) => Some(k + i),
            None => None::<int>,
        },
    decreases i,
{
    if i > 0 {
        assert(!route_matches(routes[0], path));
        assert forall|j: int| 0 <= j < i - 1 implies !route_matches(
            #[trigger] routes.skip(1)[j],
            path,
        ) by {
            assert(routes.skip(1)[j] == routes[j + 1]);
        }
        lemma_match_route_skip(routes.skip(1), path, i - 1);
        assert(routes.skip(1).skip(i - 1) =~= routes.skip(i));
    } else {
        assert(routes.skip(0) =~= routes);
    }
}

/// Scan the routing table for the first prefix match.
pub fn match_route(routes: &Vec<Route>, path: &str) -> (r: Option<usize>)
    ensures
        match r {
            Some(i) => {
                &&& spec_match_route(routes@, path@) == Some(i as int)
                &&& i < routes@.len()
                &&& route_matches(routes@[i as int], path@)
                &&& forall|j: int| 0 <= j < i ==> !route_matches(#[trigger] routes@[j], path@)
            },
            None => {
                &&& spec_match_route(routes@, path@) is None
                &&& forall|j: int|
                    0 <= j < routes@.len() ==> !route_matches(#[trigger] routes@[j], path@)
            },
        },
{
    let mut i: usize = 0;
    while i < routes.len()
        invariant
            0 <= i <= routes@.len(),
            forall|j: int| 0 <= j < i ==> !route_matches(#[trigger] routes@[j], path@),
        decreases routes@.len() - i,
    {
        if str_starts_with(path, routes[i].path_prefix.as_str()) {
            proof {
                lemma_match_route_skip(routes@, path@, i as int);
                assert(routes@.skip(i as int)[0] == routes@[i as int]);
            }
            return Some(i);
        }
        i += 1;
    }
    proof {
        lemma_match_route_skip(routes@, path@, routes@.len() as int);
        assert(routes@.skip(routes@.len() as int).len() == 0);
    }
    None
}

/// Verdict of one plugin invocation, as the driver reports it back.
#[derive(Copy, Clone, PartialEq, Eq, Structural, Debug)]
pub enum PluginVerdict {
    /// The plugin allows the request to continue.
    Allow,
    /// The plugin denies the request.
    Deny,
    /// The invocation itself failed: trap, load failure, malformed
    /// module.
    Error,
}

/// One instruction of the engine to the request driver.
#[derive(Copy, Clone, PartialEq, Eq, Structural, Debug)]
pub enum FilterStep {
    /// Invoke this plugin of this route and report its verdict back.
    RunPlugin { route: usize, plugin: usize },
    /// Write a response with this status; the request is handled, no
    /// upstream connection is attempted.
    Respond { status: u16 },
    /// The filter is done; continue to upstream selection for this
    /// route.
    Forward { route: usize },
}

/// First engine instruction for a request: a missing route answers 404
/// on the spot; a matched route starts its plugin chain, or forwards
/// directly when the chain is empty.
pub open spec fn spec_filter_begin(s: &ConfigSnapshot, path: Seq<char>) -> FilterStep {
    match spec_match_route(s.routes@, path) {
        None => FilterStep::Respond { status: STATUS_NOT_FOUND },
        Some(i) => if s.routes@[i].plugins@.len() == 0 {
            FilterStep::Forward { route: i as usize }
        } else {
            FilterStep::RunPlugin { route: i as usize, plugin: 0 }
        },
    }
}

/// Engine instruction after a plugin has been run. A deny answers 403,
/// a failed invocation answers 500, an allow moves to the next plugin
/// or, after the last one, to upstream selection.
pub open spec fn spec_filter_on_verdict(
    s: &ConfigSnapshot,
    route: int,
    plugin: int,
    verdict: PluginVerdict,
) -> FilterStep {
    match verdict {
        PluginVerdict::Deny => FilterStep::Respond { status: STATUS_FORBIDDEN },
        PluginVerdict::Error => FilterStep::Respond { status: STATUS_PLUGIN_FAILURE },
        PluginVerdict::Allow => if plugin + 1 < s.routes@[route].plugins@.len() {
            FilterStep::RunPlugin { route: route as usize, plugin: (plugin + 1) as usize }
        } else {
            FilterStep::Forward { route: route as usize }
        },
    }
}

/// Begin filtering a request.
pub fn filter_begin(s: &ConfigSnapshot, path: &str) -> (r: FilterStep)
    ensures
        r == spec_filter_begin(s, path@),
{
    match match_route(&s.routes, path) {
        None => FilterStep::Respond { status: STATUS_NOT_FOUND },
        Some(i) => {
            if s.routes[i].plugins.len() == 0 {
                FilterStep::Forward { route: i }
            } else {
                FilterStep::RunPlugin { route: i, plugin: 0 }
            }
        },
    }
}

/// Consume the verdict of the plugin the engine last asked for.
pub fn filter_on_verdict(
    s: &ConfigSnapshot,
    route: usize,
    plugin: usize,
    verdict: PluginVerdict,
) -> (r: FilterStep)
    requires
        route < s.routes@.len(),
        plugin < s.routes@[route as int].plugins@.len(),
    ensures
        r == spec_filter_on_verdict(s, route as int, plugin as int, verdict),
{
    match verdict {
        PluginVerdict::Deny => FilterStep::Respond { status: STATUS_FORBIDDEN },
        PluginVerdict::Error => FilterStep::Respond { status: STATUS_PLUGIN_FAILURE },
        PluginVerdict::Allow => {
            let chain_len = s.routes[route].plugins.len();
            if plugin + 1 < chain_len {
                FilterStep::RunPlugin { route, plugin: plugin + 1 }
            } else {
                FilterStep::Forward { route }
            }
        },
    }
}

/// How the driver reports a plugin invocation back to the engine: a
/// returned value allows or denies; a failed invocation (trap, load
/// failure, malformed module) is an error, which the engine answers
/// with 500.
pub fn verdict_from_invocation(outcome: &Result<bool, String>) -> (r: PluginVerdict)
    ensures
        match outcome {
            Ok(allow) => r == (if *allow {
                PluginVerdict::Allow
            } else {
                PluginVerdict::Deny
            }),
            Err(_) => r == PluginVerdict::Error,
        },
{
    match outcome {
        Ok(true) => PluginVerdict::Allow,
        Ok(false) => PluginVerdict::Deny,
        Err(_) => PluginVerdict::Error,
    }
}

/// A request no route prefix-matches is answered with exactly 404, and
/// the engine never instructs the driver to forward it: the first
/// instruction is already the response.
pub proof fn lemma_no_route_gives_not_found(s: &ConfigSnapshot, path: Seq<char>)
    requires
        forall|j: int| 0 <= j < s.routes@.len() ==> !route_matches(#[trigger] s.routes@[j], path),
    ensures
        spec_filter_begin(s, path) == (FilterStep::Respond { status: STATUS_NOT_FOUND }),
{
    lemma_match_route_skip(s.routes@, path, s.routes@.len() as int);
    assert(s.routes@.skip(s.routes@.len() as int).len() == 0);
}

/// A deny short-circuits the plugin chain: when every plugin before
/// position `i` allows and the plugin at `i` denies, the engine asks
/// for exactly the plugins up to `i` (each allow moves one step ahead)
/// and answers the deny with 403 — so no plugin after `i` is invoked
/// and no forward instruction is ever issued.
pub proof fn lemma_deny_short_circuits(
    s: &ConfigSnapshot,
    route: int,
    verdicts: Seq<PluginVerdict>,
    i: int,
)
    requires
        0 <= route < s.routes@.len(),
        verdicts.len() == s.routes@[route].plugins@.len(),
        0 <= i < verdicts.len(),
        verdicts[i] is Deny,
        forall|j: int| 0 <= j < i ==> #[trigger] verdicts[j] is Allow,
    ensures
        forall|j: int|
            0 <= j < i ==> spec_filter_on_verdict(s, route, j, #[trigger] verdicts[j])
                == (FilterStep::RunPlugin { route: route as usize, plugin: (j + 1) as usize }),
        spec_filter_on_verdict(s, route, i, verdicts[i]) == (FilterStep::Respond {
            status: STATUS_FORBIDDEN,
        }),
{
}

/// Index of the first cluster that carries the given name, scanning in
/// snapshot order.
pub open spec fn spec_find_cluster(clusters: Seq<Cluster>, name: Seq<char>) -> Option<int>
    decreases clusters.len(),
{
    if clusters.len() <= 0 {
        None
    } else if clusters[0].name@ == name {
        Some(0int)
    } else {
        match spec_find_cluster(clusters.skip(1), name) {
            Some(i) => Some(i + 1),
            None => None,
        }
    }
}

/// Companion of `lemma_match_route_skip` for the cluster scan.
proof fn lemma_find_cluster_skip(clusters: Seq<Cluster>, name: Seq<char>, i: int)
    requires
        0 <= i <= clusters.len(),
        forall|j: int| 0 <= j < i ==> #[trigger] clusters[j].name@ != name,
    ensures
        spec_find_cluster(clusters, name) == match spec_find_cluster(clusters.skip(i), name) {
            Some(k) => Some(k + i),
            None => None::<int>,
        },
    decreases i,
{
    if i > 0 {
        assert forall|j: int| 0 <= j < i - 1 implies #[trigger] clusters.skip(1)[j].name@
            != name by {
            assert(clusters.skip(1)[j] == clusters[j + 1]);
        }
        lemma_find_cluster_skip(clusters.skip(1), name, i - 1);
        assert(clusters.skip(1).skip(i - 1) =~= clusters.skip(i));
    } else {
        assert(clusters.skip(0) =~= clusters);
    }
}

/// Scan the cluster list for the first cluster with this name.
pub fn find_cluster(clusters: &Vec<Cluster>, name: &str) -> (r: Option<usize>)
    ensures
        match r {
            Some(i) => {
                &&& spec_find_cluster(clusters@, name@) == Some(i as int)
                &&& i < clusters@.len()
                &&& clusters@[i as int].name@ == name@
            },
            None => {
                &&& spec_find_cluster(clusters@, name@) is None
                &&& forall|j: int| 0 <= j < clusters@.len() ==> #[trigger] clusters@[j].name@ != name@
            },
        },
{
    let mut i: usize = 0;
    while i < clusters.len()
        invariant
            0 <= i <= clusters@.len(),
            forall|j: int| 0 <= j < i ==> #[trigger] clusters@[j].name@ != name@,
        decreases clusters@.len() - i,
    {
        if str_eq(clusters[i].name.as_str(), name) {
            proof {
                lemma_find_cluster_skip(clusters@, name@, i as int);
                assert(clusters@.skip(i as int)[0] == clusters@[i as int]);
            }
            return Some(i);
        }
        i += 1;
    }
    proof {
        lemma_find_cluster_skip(clusters@, name@, clusters@.len() as int);
        assert(clusters@.skip(clusters@.len() as int).len() == 0);
    }
    None
}

/// Outcome of upstream selection.
#[derive(Clone, PartialEq, Eq, Debug)]
pub enum UpstreamDecision {
    /// Forward to this address and port.
    Target { address: String, port: u16 },
    /// No route matched the path (the filter normally intercepts this
    /// case with 404; reaching it here raises 502).
    RouteMiss,
    /// The matched route names a cluster the snapshot does not hold:
    /// 502.
    ClusterMiss,
    /// The cluster exists but has no endpoint: 503.
    NoEndpoint,
}

/// Upstream selection: re-match the route, look its cluster up by
/// name, and take the cluster's first endpoint.
pub open spec fn spec_upstream(s: &ConfigSnapshot, path: Seq<char>) -> UpstreamDecision {
    match spec_match_route(s.routes@, path) {
        None => UpstreamDecision::RouteMiss,
        Some(i) => match spec_find_cluster(s.clusters@, s.routes@[i].cluster_id@) {
            None => UpstreamDecision::ClusterMiss,
            Some(c) => if s.clusters@[c].endpoints@.len() == 0 {
                UpstreamDecision::NoEndpoint
            } else {
                UpstreamDecision::Target {
                    address: s.clusters@[c].endpoints@[0].address,
                    port: s.clusters@[c].endpoints@[0].port,
                }
            },
        },
    }
}

/// Select the upstream peer for a request.
pub fn upstream_peer(s: &ConfigSnapshot, path: &str) -> (r: UpstreamDecision)
    ensures
        r == spec_upstream(s, path@),
{
    match match_route(&s.routes, path) {
        None => UpstreamDecision::RouteMiss,
        Some(i) => {
            match find_cluster(&s.clusters, s.routes[i].cluster_id.as_str()) {
                None => UpstreamDecision::ClusterMiss,
                Some(c) => {
                    if s.clusters[c].endpoints.len() == 0 {
                        UpstreamDecision::NoEndpoint
                    } else {
                        UpstreamDecision::Target {
                            address: s.clusters[c].endpoints[0].address.clone(),
                            port: s.clusters[c].endpoints[0].port,
                        }
                    }
                },
            }
        },
    }
}

/// Status of a selection that found no target, as the driver raises
/// it: 502 for a missing route or cluster, 503 for an empty cluster.
pub fn upstream_failure_status(d: &UpstreamDecision) -> (r: Option<u16>)
    ensures
        match d {
            UpstreamDecision::Target { .. } => r is None,
            UpstreamDecision::RouteMiss => r == Some(STATUS_BAD_GATEWAY),
            UpstreamDecision::ClusterMiss => r == Some(STATUS_BAD_GATEWAY),
            UpstreamDecision::NoEndpoint => r == Some(STATUS_SERVICE_UNAVAILABLE),
        },
{
    match d {
        UpstreamDecision::Target { .. } => None,
        UpstreamDecision::RouteMiss => Some(STATUS_BAD_GATEWAY),
        UpstreamDecision::ClusterMiss => Some(STATUS_BAD_GATEWAY),
        UpstreamDecision::NoEndpoint => Some(STATUS_SERVICE_UNAVAILABLE),
    }
}

/// A matched route whose cluster exists and has endpoints is forwarded
/// to exactly the first endpoint's address and port.
pub proof fn lemma_matched_route_targets_first_endpoint(
    s: &ConfigSnapshot,
    path: Seq<char>,
    i: int,
    c: int,
)
    requires
        spec_match_route(s.routes@, path) == Some(i),
        0 <= i < s.routes@.len(),
        spec_find_cluster(s.clusters@, s.routes@[i].cluster_id@) == Some(c),
        0 <= c < s.clusters@.len(),
        s.clusters@[c].endpoints@.len() > 0,
    ensures
        spec_upstream(s, path) == (UpstreamDecision::Target {
            address: s.clusters@[c].endpoints@[0].address,
            port: s.clusters@[c].endpoints@[0].port,
        }),
{
}

/// Publishing the snapshot already in force changes no decision: with
/// the history unchanged at its last entry, both the filter's first
/// instruction and upstream selection are what they were before the
/// republish.
pub proof fn lemma_republish_preserves_decisions(
    h: Seq<ConfigSnapshot>,
    snapshot: ConfigSnapshot,
    path: Seq<char>,
)
    requires
        h.len() > 0,
        h.last() == snapshot,
    ensures
        spec_filter_begin(&h.push(snapshot).last(), path) == spec_filter_begin(&h.last(), path),
        spec_upstream(&h.push(snapshot).last(), path) == spec_upstream(&h.last(), path),
{
    assert(h.push(snapshot).last() == snapshot);
}

} // verus!
