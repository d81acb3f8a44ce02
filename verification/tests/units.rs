//! Unit coverage of the text helpers, header context, host
//! capabilities, module cache, bootstrap plan and kernel key logic.

use agw_core::bootstrap::{
    bootstrap_step, cert_path_for, fallback_listener_addr, key_path_for, listener_addr,
    plan_listeners, BootstrapAction, ControlEvent, ListenerAction,
};
use agw_core::config::{ConfigSnapshot, Listener, TlsConfig};
use agw_core::headers::{build_header_context, find_header, get_header, HeaderRead};
use agw_core::plugins::{DbDemoPlugin, DbKind, RateLimitPlugin, UserAgentPlugin};
use agw_core::resources::{
    level_tag, query_reply_from_rows, resolve_kv_pool, resolve_mysql_pool, resolve_postgres_pool,
    LogLevel, ResourceRegistry,
};
use agw_core::sockmap::{
    is_established_callback, redirect_decision, sockmap_install_decision, PacketLog,
};
use agw_core::text::{dec_exceeds, lower_str, str_contains, str_eq, str_starts_with, u16_to_dec};
use agw_core::vm::ModuleCache;

fn pairs(raw: &[(&str, &str)]) -> Vec<(String, String)> {
    raw.iter().map(|(k, v)| (k.to_string(), v.to_string())).collect()
}

#[test]
fn lowercasing_touches_only_ascii_uppercase() {
    assert_eq!(lower_str("Content-Type"), "content-type");
    assert_eq!(lower_str("x-user-id"), "x-user-id");
    assert_eq!(lower_str("ABC123!"), "abc123!");
}

#[test]
fn prefix_and_substring_checks() {
    assert!(str_starts_with("/api/x", "/api"));
    assert!(str_starts_with("/api", "/api"));
    assert!(!str_starts_with("/ap", "/api"));
    assert!(!str_starts_with("/other", "/api"));
    assert!(str_contains("curl/8.0", "curl"));
    assert!(str_contains("xcurly", "curl"));
    assert!(!str_contains("Mozilla", "curl"));
    assert!(str_contains("anything", ""));
    assert!(str_eq("same", "same"));
    assert!(!str_eq("same", "Same"));
}

#[test]
fn decimal_reading_and_rendering() {
    assert!(dec_exceeds("6", 5));
    assert!(!dec_exceeds("5", 5));
    assert!(!dec_exceeds("0", 5));
    assert!(dec_exceeds("007", 5));
    assert!(!dec_exceeds("", 5));
    assert!(!dec_exceeds("12a", 5));
    assert!(!dec_exceeds("-7", 5));
    assert!(dec_exceeds("18446744073709551616", 5));
    assert_eq!(u16_to_dec(0), "0");
    assert_eq!(u16_to_dec(8080), "8080");
    assert_eq!(u16_to_dec(65535), "65535");
}

#[test]
fn header_context_lowercases_names_and_drops_binary_values() {
    let raw = pairs(&[("User-Agent", "curl/8.0"), ("X-Trace", "ok")]);
    let mut with_binary = raw.clone();
    with_binary.push(("X-Bad".to_string(), "a\u{1}b".to_string()));
    let ctx = build_header_context(&with_binary);
    assert_eq!(
        ctx,
        pairs(&[("user-agent", "curl/8.0"), ("x-trace", "ok")])
    );
}

#[test]
fn header_lookup_is_case_insensitive_first_match() {
    let hs = pairs(&[("User-Agent", "curl/8.0"), ("user-agent", "second")]);
    assert_eq!(find_header(&hs, "USER-AGENT"), Some("curl/8.0".to_string()));
    assert_eq!(find_header(&hs, "absent"), None);
}

#[test]
fn get_header_bounds_the_output_buffer() {
    let hs = pairs(&[("User-Agent", "curl/8.0")]);
    assert_eq!(
        get_header(&hs, "user-agent", 64),
        HeaderRead::Value("curl/8.0".to_string())
    );
    assert_eq!(get_header(&hs, "user-agent", 3), HeaderRead::Overflow(8));
    assert_eq!(get_header(&hs, "absent", 0), HeaderRead::Value(String::new()));
}

#[test]
fn user_agent_plugin_denies_curl_only() {
    let curl = pairs(&[("user-agent", "curl/8.0")]);
    let mozilla = pairs(&[("User-Agent", "Mozilla")]);
    let none = pairs(&[]);
    assert!(!UserAgentPlugin::handle_request(&curl));
    assert!(UserAgentPlugin::handle_request(&mozilla));
    assert!(UserAgentPlugin::handle_request(&none));
}

#[test]
fn rate_plugin_allows_five_then_denies_the_sixth() {
    let hs = pairs(&[("x-user-id", "42")]);
    assert_eq!(RateLimitPlugin::counter_key(&hs), Some("42".to_string()));
    for count in 1..=5 {
        let reply: Result<String, String> = Ok(count.to_string());
        assert!(RateLimitPlugin::verdict_on_reply(&reply), "count {}", count);
    }
    let sixth: Result<String, String> = Ok("6".to_string());
    assert!(!RateLimitPlugin::verdict_on_reply(&sixth));
}

#[test]
fn rate_plugin_skips_requests_without_user_id() {
    assert_eq!(RateLimitPlugin::counter_key(&pairs(&[])), None);
    assert_eq!(
        RateLimitPlugin::counter_key(&pairs(&[("x-user-id", "")])),
        None
    );
    let err: Result<String, String> = Err("backend down".to_string());
    assert!(RateLimitPlugin::verdict_on_reply(&err));
    let garbled: Result<String, String> = Ok("NaN".to_string());
    assert!(RateLimitPlugin::verdict_on_reply(&garbled));
}

#[test]
fn db_plugin_picks_engine_from_header() {
    let (kind, conn, sql) = DbDemoPlugin::choose_query(&pairs(&[("x-db-type", "mysql")]));
    assert_eq!(kind, DbKind::Mysql);
    assert_eq!(conn, "products-mysql");
    assert_eq!(sql, "SELECT name FROM products LIMIT 1");
    let (kind, conn, sql) = DbDemoPlugin::choose_query(&pairs(&[]));
    assert_eq!(kind, DbKind::Postgres);
    assert_eq!(conn, "users-pg");
    assert_eq!(sql, "SELECT username FROM users LIMIT 1");
    let ok: Result<String, String> = Ok("[]".to_string());
    assert!(DbDemoPlugin::verdict_on_result(&ok));
}

#[test]
fn registry_resolution_and_errors() {
    let reg = ResourceRegistry {
        kv_names: vec!["default".to_string()],
        postgres_names: vec!["users-pg".to_string()],
        mysql_names: vec!["products-mysql".to_string()],
    };
    assert_eq!(resolve_kv_pool(&reg, "default"), Ok(0));
    assert_eq!(
        resolve_kv_pool(&reg, "other"),
        Err("Redis resource 'other' not found".to_string())
    );
    assert_eq!(resolve_postgres_pool(&reg, "users-pg"), Ok(0));
    assert_eq!(
        resolve_postgres_pool(&reg, "nope"),
        Err("Postgres resource 'nope' not found".to_string())
    );
    assert_eq!(resolve_mysql_pool(&reg, "products-mysql"), Ok(0));
    assert_eq!(
        resolve_mysql_pool(&reg, "nope"),
        Err("MySQL resource 'nope' not found".to_string())
    );
}

#[test]
fn query_reply_is_the_json_encoding_of_the_rows() {
    let rows = vec!["alice".to_string(), "bo\"b".to_string()];
    assert_eq!(
        query_reply_from_rows(&rows),
        Ok("[\"alice\",\"bo\\\"b\"]".to_string())
    );
    let empty: Vec<String> = vec![];
    assert_eq!(query_reply_from_rows(&empty), Ok("[]".to_string()));
}

#[test]
fn log_levels_have_fixed_tags() {
    assert_eq!(level_tag(LogLevel::Debug), "DEBUG");
    assert_eq!(level_tag(LogLevel::Info), "INFO");
    assert_eq!(level_tag(LogLevel::Warn), "WARN");
    assert_eq!(level_tag(LogLevel::Error), "ERROR");
}

#[test]
fn module_cache_returns_identical_ids_for_identical_paths() {
    let mut cache = ModuleCache::new();
    let a = "/plugins/a.wasm".to_string();
    let b = "/plugins/b.wasm".to_string();
    let (id_a, known_a) = cache.get_or_assign(&a);
    assert!(!known_a);
    let (id_b, known_b) = cache.get_or_assign(&b);
    assert!(!known_b);
    assert_ne!(id_a, id_b);
    let (id_a2, known_a2) = cache.get_or_assign(&a);
    assert!(known_a2);
    assert_eq!(id_a, id_a2);
    assert_eq!(cache.lookup("/plugins/a.wasm"), Some(id_a));
    assert_eq!(cache.lookup("/plugins/c.wasm"), None);
}

#[test]
fn bootstrap_accepts_only_snapshots_with_listeners() {
    let mut snap = ConfigSnapshot {
        version_id: "v1".to_string(),
        listeners: vec![],
        routes: vec![],
        clusters: vec![],
    };
    match bootstrap_step(ControlEvent::Pushed(snap.clone())) {
        BootstrapAction::RetrySecs(secs) => assert_eq!(secs, 2),
        BootstrapAction::Accept(_) => panic!("accepted a snapshot without listeners"),
    }
    match bootstrap_step(ControlEvent::ConnectFailed) {
        BootstrapAction::RetrySecs(secs) => assert_eq!(secs, 2),
        BootstrapAction::Accept(_) => panic!("accepted on a failed connection"),
    }
    snap.listeners.push(Listener {
        name: "main".to_string(),
        address: "0.0.0.0".to_string(),
        port: 8080,
        tls: None,
    });
    match bootstrap_step(ControlEvent::Pushed(snap)) {
        BootstrapAction::Accept(s) => assert_eq!(s.version_id, "v1"),
        BootstrapAction::RetrySecs(_) => panic!("rejected a usable snapshot"),
    }
}

#[test]
fn listener_plan_covers_tls_plain_and_fallback() {
    assert_eq!(listener_addr("0.0.0.0", 8080), "0.0.0.0:8080");
    assert_eq!(cert_path_for("main"), "/tmp/main_cert.pem");
    assert_eq!(key_path_for("main"), "/tmp/main_key.pem");
    assert_eq!(fallback_listener_addr(), "0.0.0.0:6188");

    let snap = ConfigSnapshot {
        version_id: "v1".to_string(),
        listeners: vec![
            Listener {
                name: "plain".to_string(),
                address: "0.0.0.0".to_string(),
                port: 8080,
                tls: None,
            },
            Listener {
                name: "secure".to_string(),
                address: "0.0.0.0".to_string(),
                port: 8443,
                tls: Some(TlsConfig {
                    cert_pem: "CERT".to_string(),
                    key_pem: "KEY".to_string(),
                }),
            },
        ],
        routes: vec![],
        clusters: vec![],
    };
    let plan = plan_listeners(&snap);
    assert_eq!(plan.len(), 2);
    match &plan[0] {
        ListenerAction::Plain { addr } => assert_eq!(addr, "0.0.0.0:8080"),
        _ => panic!("expected a plain listener"),
    }
    match &plan[1] {
        ListenerAction::Tls { addr, cert_path, key_path, cert_pem, key_pem } => {
            assert_eq!(addr, "0.0.0.0:8443");
            assert_eq!(cert_path, "/tmp/secure_cert.pem");
            assert_eq!(key_path, "/tmp/secure_key.pem");
            assert_eq!(cert_pem, "CERT");
            assert_eq!(key_pem, "KEY");
        },
        _ => panic!("expected a TLS listener"),
    }

    let empty = ConfigSnapshot {
        version_id: "v1".to_string(),
        listeners: vec![],
        routes: vec![],
        clusters: vec![],
    };
    let plan = plan_listeners(&empty);
    assert_eq!(plan.len(), 1);
    match &plan[0] {
        ListenerAction::Plain { addr } => assert_eq!(addr, "0.0.0.0:6188"),
        _ => panic!("expected the fallback listener"),
    }
}

#[test]
fn installer_reacts_only_to_established_callbacks() {
    assert!(is_established_callback(4));
    assert!(is_established_callback(5));
    for op in [0u32, 1, 2, 3, 6, 7] {
        assert!(!is_established_callback(op));
        assert_eq!(sockmap_install_decision(op, 1, 2, 3, 4), None);
    }
    let key = sockmap_install_decision(4, 0x0a000001, 0x0a000002, 1234, 8080).unwrap();
    assert_eq!(key.ipv4_src, 0x0a000001);
    assert_eq!(key.ipv4_dst, 0x0a000002);
    assert_eq!(key.port_src, 1234);
    assert_eq!(key.port_dst, 8080);
    assert_eq!(key.len, 0);
}

#[test]
fn redirector_key_matches_the_peers_installed_key() {
    // Ends A and B of one connection: what B installed under the
    // installer's viewpoint is what A's redirector looks up when A
    // sends.
    let (a_ip, a_port) = (0x7f000001u32, 50000u16);
    let (b_ip, b_port) = (0x7f000001u32, 8080u16);
    let installed_at_b = sockmap_install_decision(5, a_ip, b_ip, a_port, b_port).unwrap();
    let (lookup_from_a, verdict) = redirect_decision(a_ip, b_ip, a_port, b_port);
    assert_eq!(installed_at_b, lookup_from_a);
    assert_eq!(verdict, 1);
    let _: PacketLog = lookup_from_a;
}
