//! The external-resource registry and the host capabilities built on
//! it: logging, key-value store commands, SQL queries.
//!
//! The registry maps logical names to backend handles. The handles
//! themselves (client connections, pools) live outside the verified
//! core in a side table; the registry holds the names, in the same
//! order, so resolution is verified and the driver dispatches on the
//! returned index. Each capability is split around its backend call:
//! resolution and reply marshalling are verified here, the call itself
//! is the driver's.

use vstd::prelude::*;

use crate::text::str_eq;
use vstd::string::StringExecFns;

verus! {

/// Severity of a plugin log line.
#[derive(Copy, Clone, PartialEq, Eq, Structural, Debug)]
pub enum LogLevel {
    Debug,
    Info,
    Warn,
    Error,
}

/// Tag a log line is printed under.
pub fn level_tag(level: LogLevel) -> (r: &'static str)
    ensures
        match level {
            LogLevel::Debug => r@ == "DEBUG"@,
            LogLevel::Info => r@ == "INFO"@,
            LogLevel::Warn => r@ == "WARN"@,
            LogLevel::Error => r@ == "ERROR"@,
        },
{
    match level {
        LogLevel::Debug => "DEBUG",
        LogLevel::Info => "INFO",
        LogLevel::Warn => "WARN",
        LogLevel::Error => "ERROR",
    }
}

/// Logical names of the backends the host exposes to plugins, fixed at
/// startup. The driver keeps the handles in side tables, one per kind,
/// indexed as these names are.
pub struct ResourceRegistry {
    pub kv_names: Vec<String>,
    pub postgres_names: Vec<String>,
    pub mysql_names: Vec<String>,
}

/// Some entry of the name table carries the given name.
pub open spec fn name_listed(names: Seq<String>, name: Seq<char>) -> bool {
    exists|i: int| 0 <= i < names.len() && #[trigger] names[i]@ == name
}

/// First index of the name in the table.
pub fn find_name(names: &Vec<String>, name: &str) -> (r: Option<usize>)
    ensures
        match r {
            Some(i) => i < names@.len() && names@[i as int]@ == name@ && forall|j: int|
                0 <= j < i ==> #[trigger] names@[j]@ != name@,
            None => !name_listed(names@, name@),
        },
{
    let mut i: usize = 0;
    while i < names.len()
        invariant
            0 <= i <= names@.len(),
            forall|j: int| 0 <= j < i ==> #[trigger] names@[j]@ != name@,
        decreases names@.len() - i,
    {
        if str_eq(names[i].as_str(), name) {
            return Some(i);
        }
        i += 1;
    }
    None
}

/// Resolution half of the `execute` capability (key-value command):
/// the index of the named client, or the structured error the plugin
/// receives for an unknown pool — never a crash.
pub fn resolve_kv_pool(reg: &ResourceRegistry, addr: &str) -> (r: Result<usize, String>)
    ensures
        match r {
            Ok(i) => i < reg.kv_names@.len() && reg.kv_names@[i as int]@ == addr@
                && forall|j: int| 0 <= j < i ==> #[trigger] reg.kv_names@[j]@ != addr@,
            Err(m) => !name_listed(reg.kv_names@, addr@) && m@ == "Redis resource '"@ + addr@
                + "' not found"@,
        },
{
    match find_name(&reg.kv_names, addr) {
        Some(i) => Ok(i),
        None => {
            let mut m = String::from_str("Redis resource '");
            m.append(addr);
            m.append("' not found");
            Err(m)
        },
    }
}

/// Resolution half of the `query` capability for the Postgres pool
/// table.
pub fn resolve_postgres_pool(reg: &ResourceRegistry, conn: &str) -> (r: Result<usize, String>)
    ensures
        match r {
            Ok(i) => i < reg.postgres_names@.len() && reg.postgres_names@[i as int]@ == conn@
                && forall|j: int| 0 <= j < i ==> #[trigger] reg.postgres_names@[j]@ != conn@,
            Err(m) => !name_listed(reg.postgres_names@, conn@) && m@ == "Postgres resource '"@
                + conn@ + "' not found"@,
        },
{
    match find_name(&reg.postgres_names, conn) {
        Some(i) => Ok(i),
        None => {
            let mut m = String::from_str("Postgres resource '");
            m.append(conn);
            m.append("' not found");
            Err(m)
        },
    }
}

/// Resolution half of the `query` capability for the MySQL pool table.
pub fn resolve_mysql_pool(reg: &ResourceRegistry, conn: &str) -> (r: Result<usize, String>)
    ensures
        match r {
            Ok(i) => i < reg.mysql_names@.len() && reg.mysql_names@[i as int]@ == conn@
                && forall|j: int| 0 <= j < i ==> #[trigger] reg.mysql_names@[j]@ != conn@,
            Err(m) => !name_listed(reg.mysql_names@, conn@) && m@ == "MySQL resource '"@ + conn@
                + "' not found"@,
        },
{
    match find_name(&reg.mysql_names, conn) {
        Some(i) => Ok(i),
        None => {
            let mut m = String::from_str("MySQL resource '");
            m.append(conn);
            m.append("' not found");
            Err(m)
        },
    }
}

/// The JSON array encoding of a list of strings. Stated, not spelled
/// out: it is a function of the strings alone, and the encoder below is
/// the one source of values for it.
pub uninterp spec fn json_of_strings(rows: Seq<Seq<char>>) -> Seq<char>;

/// Relies on serde_json::to_string: the JSON encoding of a value,
/// depending on the value alone. Encoding a vector of strings cannot
/// fail (only maps with non-string keys, or a serializer that itself
/// fails, can), so the error arm is never taken.
#[verifier::external_body]
fn encode_string_rows(rows: &Vec<String>) -> (r: String)
    ensures
        r@ == json_of_strings(rows.deep_view()),
{
    match serde_json::to_string(rows) {
        Ok(s) => s,
        Err(_) => String::new(),
    }
}

/// Marshalling half of the `query` capability: the first column of
/// every row, already read out as strings, is JSON-encoded as the reply
/// the plugin receives.
pub fn query_reply_from_rows(rows: &Vec<String>) -> (r: Result<String, String>)
    ensures
        r matches Ok(s) && s@ == json_of_strings(rows.deep_view()),
{
    Ok(encode_string_rows(rows))
}

} // verus!
