//! Bootstrap and control-plane decisions.
//!
//! The control-plane client opens a streaming subscription and reports
//! each outcome as an event; the decisions — accept the first usable
//! snapshot, retry otherwise, and with what delay — are made here. So
//! is the listener plan: which sockets to open for the bootstrap
//! snapshot, with which certificate files, and the plaintext fallback
//! when the snapshot names none.

use vstd::prelude::*;

use crate::config::ConfigSnapshot;
use crate::config::Listener;
use crate::text::dec_str;
use crate::text::u16_to_dec;
use vstd::string::StringExecFns;

verus! {

/// Delay before the bootstrap loop tries the control plane again.
pub const BOOTSTRAP_RETRY_SECS: u64 = 2;

/// Delay before the background updater re-opens a lost stream.
pub const RECONNECT_BACKOFF_SECS: u64 = 5;

/// Address of the plaintext fallback listener installed when the
/// bootstrap snapshot names no listener at all.
pub fn fallback_listener_addr() -> (r: String)
    ensures
        r@ == "0.0.0.0:6188"@,
{
    String::from_str("0.0.0.0:6188")
}

/// One outcome of a control-plane exchange, as the transport reports
/// it.
pub enum ControlEvent {
    /// The connection attempt failed.
    ConnectFailed,
    /// The stream broke, or ended without a message.
    StreamLost,
    /// The control plane pushed a snapshot.
    Pushed(ConfigSnapshot),
}

/// What the bootstrap loop does next.
pub enum BootstrapAction {
    /// The first usable snapshot: hand it to the caller, bootstrap is
    /// done.
    Accept(ConfigSnapshot),
    /// Sleep this many seconds and try again.
    RetrySecs(u64),
}

/// Bootstrap never fails: a snapshot with listeners is accepted,
/// everything else — a connection failure, a lost stream, a snapshot
/// without listeners (the control plane is not ready) — means retrying
/// after the bootstrap delay.
pub fn bootstrap_step(event: ControlEvent) -> (r: BootstrapAction)
    ensures
        match event {
            ControlEvent::Pushed(s) => if s.listeners@.len() > 0 {
                r == BootstrapAction::Accept(s)
            } else {
                r == BootstrapAction::RetrySecs(BOOTSTRAP_RETRY_SECS)
            },
            _ => r == BootstrapAction::RetrySecs(BOOTSTRAP_RETRY_SECS),
        },
{
    match event {
        ControlEvent::Pushed(s) => {
            if s.listeners.len() > 0 {
                BootstrapAction::Accept(s)
            } else {
                BootstrapAction::RetrySecs(BOOTSTRAP_RETRY_SECS)
            }
        },
        ControlEvent::ConnectFailed => BootstrapAction::RetrySecs(BOOTSTRAP_RETRY_SECS),
        ControlEvent::StreamLost => BootstrapAction::RetrySecs(BOOTSTRAP_RETRY_SECS),
    }
}

/// Path the certificate of a TLS listener is written to, derived from
/// the listener's name.
pub fn cert_path_for(name: &str) -> (r: String)
    ensures
        r@ == "/tmp/"@ + name@ + "_cert.pem"@,
{
    let mut p = String::from_str("/tmp/");
    p.append(name);
    p.append("_cert.pem");
    p
}

/// Path the private key of a TLS listener is written to, derived from
/// the listener's name.
pub fn key_path_for(name: &str) -> (r: String)
    ensures
        r@ == "/tmp/"@ + name@ + "_key.pem"@,
{
    let mut p = String::from_str("/tmp/");
    p.append(name);
    p.append("_key.pem");
    p
}

/// The socket address a listener binds, as the framework takes it.
pub fn listener_addr(address: &str, port: u16) -> (r: String)
    ensures
        r@ == address@ + ":"@ + dec_str(port as nat),
{
    let mut a = String::from_str(address);
    a.append(":");
    let digits = u16_to_dec(port);
    a.append(digits.as_str());
    a
}

/// One socket to open for the bootstrap snapshot.
pub enum ListenerAction {
    /// A plaintext listener on this address.
    Plain { addr: String },
    /// A TLS listener on this address; the driver writes the
    /// certificate material to the two paths before registering it,
    /// and skips the listener — never aborting startup — when a write
    /// fails.
    Tls { addr: String, cert_path: String, key_path: String, cert_pem: String, key_pem: String },
}

/// The action planned for a listener carries that listener's address,
/// certificate paths derived from its name, and its certificate
/// material.
pub open spec fn action_matches(a: ListenerAction, l: Listener) -> bool {
    match l.tls {
        None => a matches ListenerAction::Plain { addr } && addr@ == l.address@ + ":"@ + dec_str(
            l.port as nat,
        ),
        Some(tls) => a matches ListenerAction::Tls { addr, cert_path, key_path, cert_pem, key_pem }
            && addr@ == l.address@ + ":"@ + dec_str(l.port as nat) && cert_path@ == "/tmp/"@
            + l.name@ + "_cert.pem"@ && key_path@ == "/tmp/"@ + l.name@ + "_key.pem"@ && cert_pem@
            == tls.cert_pem@ && key_pem@ == tls.key_pem@,
    }
}

/// The listener plan for a bootstrap snapshot: one action per listener
/// in snapshot order, or the single plaintext fallback when the
/// snapshot names none, so the process stays reachable.
pub fn plan_listeners(s: &ConfigSnapshot) -> (plan: Vec<ListenerAction>)
    ensures
        s.listeners@.len() == 0 ==> plan@.len() == 1 && (plan@[0] matches ListenerAction::Plain {
            addr,
        } && addr@ == "0.0.0.0:6188"@),
        s.listeners@.len() > 0 ==> plan@.len() == s.listeners@.len() && forall|i: int|
            0 <= i < s.listeners@.len() ==> action_matches(#[trigger] plan@[i], s.listeners@[i]),
{
    let mut plan: Vec<ListenerAction> = Vec::new();
    if s.listeners.len() == 0 {
        plan.push(ListenerAction::Plain { addr: fallback_listener_addr() });
        return plan;
    }
    let mut i: usize = 0;
    while i < s.listeners.len()
        invariant
            0 <= i <= s.listeners@.len(),
            plan@.len() == i,
            forall|j: int| 0 <= j < i ==> action_matches(#[trigger] plan@[j], s.listeners@[j]),
        decreases s.listeners@.len() - i,
    {
        let l = &s.listeners[i];
        let addr = listener_addr(l.address.as_str(), l.port);
        match &l.tls {
            None => {
                plan.push(ListenerAction::Plain { addr });
            },
            Some(tls) => {
                plan.push(
                    ListenerAction::Tls {
                        addr,
                        cert_path: cert_path_for(l.name.as_str()),
                        key_path: key_path_for(l.name.as_str()),
                        cert_pem: tls.cert_pem.clone(),
                        key_pem: tls.key_pem.clone(),
                    },
                );
            },
        }
        i += 1;
    }
    plan
}

} // verus!
