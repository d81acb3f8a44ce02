//! Decision logic of the bundled plugins.
//!
//! A plugin is a sandboxed module whose entry point takes the request
//! header list and returns an allow/deny verdict. The modules run
//! outside the verified core; the decisions they implement are the
//! functions here. Plugins that call host capabilities (the rate
//! limiter's counter, the database demo's query) are split around the
//! call: one function prepares it from the headers, one turns its reply
//! into the verdict, and the driver performs the call in between.

use vstd::prelude::*;

use crate::headers::entries_view;
use crate::headers::find_header;
use crate::headers::spec_find_header;
use crate::text::all_dec_digits;
use crate::text::contains_seq;
use crate::text::dec_exceeds;
use crate::text::dec_val;
use crate::text::str_contains;
use crate::text::str_eq;
use vstd::string::StringExecFns;

verus! {

/// A plugin that refuses every request.
pub struct DenyAllPlugin;

impl DenyAllPlugin {
    /// Plugin entry point: deny, whatever the request carries.
    pub fn handle_request(_req_headers: &Vec<(String, String)>) -> (allow: bool)
        ensures
            !allow,
    {
        false
    }
}

/// The user-agent filter allows a request unless its user-agent header
/// (looked up case-insensitively) contains this needle.
pub open spec fn spec_ua_allows(hs: Seq<(Seq<char>, Seq<char>)>) -> bool {
    match spec_find_header(hs, "user-agent"@) {
        Some(v) => !contains_seq(v, "curl"@),
        None => true,
    }
}

/// A plugin that screens on the request's user-agent.
pub struct UserAgentPlugin;

impl UserAgentPlugin {
    /// Plugin entry point: deny exactly when the user-agent value
    /// contains `curl`; requests without the header pass.
    pub fn handle_request(req_headers: &Vec<(String, String)>) -> (allow: bool)
        ensures
            allow == spec_ua_allows(entries_view(req_headers@)),
    {
        match find_header(req_headers, "user-agent") {
            Some(v) => !str_contains(v.as_str(), "curl"),
            None => true,
        }
    }
}

/// Count above which the rate limiter denies.
pub const RATE_LIMIT: u64 = 5;

/// A plugin that counts requests per user through the key-value store
/// and denies once the count passes `RATE_LIMIT`.
pub struct RateLimitPlugin;

impl RateLimitPlugin {
    /// First half of the plugin, before the host call: the key the
    /// counter is kept under — the request's `x-user-id` header. A
    /// request without one (or with an empty one) is not counted and
    /// passes outright.
    pub fn counter_key(req_headers: &Vec<(String, String)>) -> (r: Option<String>)
        ensures
            match spec_find_header(entries_view(req_headers@), "x-user-id"@) {
                Some(v) => if v.len() == 0 {
                    r is None
                } else {
                    r matches Some(k) && k@ == v
                },
                None => r is None,
            },
    {
        match find_header(req_headers, "x-user-id") {
            Some(v) => {
                if v.as_str().unicode_len() == 0 {
                    None
                } else {
                    Some(v)
                }
            },
            None => None,
        }
    }

    /// Second half, after the host call: the verdict on the store's
    /// reply to the increment. Deny exactly when the reply is a
    /// decimal count above the limit; a store error or an unreadable
    /// reply lets the request pass.
    pub fn verdict_on_reply(reply: &Result<String, String>) -> (allow: bool)
        ensures
            allow == !(reply matches Ok(c) && c@.len() > 0 && all_dec_digits(c@) && dec_val(c@)
                > RATE_LIMIT),
    {
        match reply {
            Ok(c) => !dec_exceeds(c.as_str(), RATE_LIMIT),
            Err(_) => true,
        }
    }
}

/// Which database engine a query goes to.
#[derive(Copy, Clone, PartialEq, Eq, Structural, Debug)]
pub enum DbKind {
    Postgres,
    Mysql,
}

/// A plugin that demonstrates the SQL host capability: it picks an
/// engine from the request, runs one fixed query, and lets the request
/// pass whatever comes back.
pub struct DbDemoPlugin;

impl DbDemoPlugin {
    /// First half, before the host call: the engine, pool name and SQL
    /// text to query with. The `x-db-type` header value `mysql` picks
    /// the MySQL pool; anything else (or no header) falls back to
    /// Postgres.
    pub fn choose_query(req_headers: &Vec<(String, String)>) -> (r: (DbKind, String, String))
        ensures
            ({
                let sel = spec_find_header(entries_view(req_headers@), "x-db-type"@);
                if sel == Some("mysql"@) {
                    r.0 == DbKind::Mysql && r.1@ == "products-mysql"@ && r.2@
                        == "SELECT name FROM products LIMIT 1"@
                } else {
                    r.0 == DbKind::Postgres && r.1@ == "users-pg"@ && r.2@
                        == "SELECT username FROM users LIMIT 1"@
                }
            }),
    {
        let is_mysql = match find_header(req_headers, "x-db-type") {
            Some(v) => str_eq(v.as_str(), "mysql"),
            None => false,
        };
        if is_mysql {
            (
                DbKind::Mysql,
                String::from_str("products-mysql"),
                String::from_str("SELECT name FROM products LIMIT 1"),
            )
        } else {
            (
                DbKind::Postgres,
                String::from_str("users-pg"),
                String::from_str("SELECT username FROM users LIMIT 1"),
            )
        }
    }

    /// Second half, after the host call: the demo only logs the query
    /// outcome — the request passes regardless.
    pub fn verdict_on_result(_result: &Result<String, String>) -> (allow: bool)
        ensures
            allow,
    {
        true
    }
}

} // verus!
