//! The configuration a control plane pushes to this data plane: an
//! immutable snapshot bundling listeners, routes and clusters, together
//! with its validity condition (every route names an existing cluster).

use vstd::prelude::*;

verus! {

/// One upstream address a request can be forwarded to.
#[derive(Clone)]
pub struct Endpoint {
    pub address: String,
    pub port: u16,
}

/// A named set of upstream endpoints.
#[derive(Clone)]
pub struct Cluster {
    pub name: String,
    pub endpoints: Vec<Endpoint>,
}

/// Reference to a plugin module: a diagnostic name and the filesystem
/// path the module is loaded from.
#[derive(Clone)]
pub struct PluginRef {
    pub name: String,
    pub wasm_path: String,
}

/// A prefix-to-cluster binding with an ordered plugin chain.
#[derive(Clone)]
pub struct Route {
    pub path_prefix: String,
    pub cluster_id: String,
    pub plugins: Vec<PluginRef>,
}

/// Certificate material of a TLS listener, in PEM form.
#[derive(Clone)]
pub struct TlsConfig {
    pub cert_pem: String,
    pub key_pem: String,
}

/// One listening socket, consumed once at bootstrap.
#[derive(Clone)]
pub struct Listener {
    pub name: String,
    pub address: String,
    pub port: u16,
    pub tls: Option<TlsConfig>,
}

/// An immutable, versioned configuration snapshot.
#[derive(Clone)]
pub struct ConfigSnapshot {
    pub version_id: String,
    pub listeners: Vec<Listener>,
    pub routes: Vec<Route>,
    pub clusters: Vec<Cluster>,
}

/// Some cluster in the sequence carries the given name.
pub open spec fn cluster_exists(clusters: Seq<Cluster>, name: Seq<char>) -> bool {
    exists|i: int| 0 <= i < clusters.len() && #[trigger] clusters[i].name@ == name
}

/// Referential integrity of a snapshot: every route's cluster
/// identifier names some cluster of the same snapshot.
pub open spec fn snapshot_valid(s: &ConfigSnapshot) -> bool {
    forall|i: int|
        0 <= i < s.routes@.len() ==> cluster_exists(
            s.clusters@,
            #[trigger] s.routes@[i].cluster_id@,
        )
}

/// Does some cluster carry this name?
pub fn cluster_name_known(clusters: &Vec<Cluster>, name: &str) -> (r: bool)
    ensures
        r == cluster_exists(clusters@, name@),
{
    let mut i: usize = 0;
    while i < clusters.len()
        invariant
            0 <= i <= clusters@.len(),
            forall|j: int| 0 <= j < i ==> #[trigger] clusters@[j].name@ != name@,
        decreases clusters@.len() - i,
    {
        if crate::text::str_eq(clusters[i].name.as_str(), name) {
            return true;
        }
        i += 1;
    }
    false
}

/// Check a snapshot's referential integrity. A snapshot that fails
/// this check is dropped by the updater; the one in force remains.
pub fn validate_snapshot(s: &ConfigSnapshot) -> (r: bool)
    ensures
        r == snapshot_valid(s),
{
    let mut i: usize = 0;
    while i < s.routes.len()
        invariant
            0 <= i <= s.routes@.len(),
            forall|j: int|
                0 <= j < i ==> cluster_exists(s.clusters@, #[trigger] s.routes@[j].cluster_id@),
        decreases s.routes@.len() - i,
    {
        if !cluster_name_known(&s.clusters, s.routes[i].cluster_id.as_str()) {
            return false;
        }
        i += 1;
    }
    true
}

} // verus!
