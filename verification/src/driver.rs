//! The trusted boundary to the `mysql` driver. Every call into the driver
//! crate is made here, behind a small wrapper whose contract Verus
//! believes; the rest of the library is verified against these wrappers.

use crate::cell::CellValue;
use crate::config::ConnectionConfig;
use mysql::prelude::Queryable;
use std::io::Write;
use vstd::prelude::*;

verus! {

#[verifier::external_type_specification]
#[verifier::external_body]
pub struct ExOpts(mysql::Opts);

#[verifier::external_type_specification]
#[verifier::external_body]
pub struct ExPool(mysql::Pool);

#[verifier::external_type_specification]
#[verifier::external_body]
pub struct ExPooledConn(mysql::PooledConn);

#[verifier::external_type_specification]
#[verifier::external_body]
pub struct ExRow(mysql::Row);

#[verifier::external_type_specification]
#[verifier::external_body]
pub struct ExValue(mysql::Value);

#[verifier::external_type_specification]
#[verifier::external_body]
pub struct ExError(mysql::Error);

/// Relies on mysql::OptsBuilder: `new` starts from the driver defaults
/// and `ip_or_hostname`, `user`, `pass` and `db_name` record the four
/// credential fields one for one; the driver stores a host it can parse
/// in normalized form and keeps the verbatim text otherwise. The final
/// conversion yields the driver's connection options.
#[verifier::external_body]
pub(crate) fn opts_from_config(config: &ConnectionConfig) -> (o: mysql::Opts) {
    mysql::OptsBuilder::new()
        .ip_or_hostname(Some(config.host.clone()))
        .user(Some(config.username.clone()))
        .pass(Some(config.password.clone()))
        .db_name(Some(config.database.clone()))
        .into()
}

/// Relies on mysql::Pool::new: builds a pooled connection source from
/// the given options, eagerly opening the pool's minimum number of
/// connections, and reports any network, authentication or resolution
/// failure as an error instead of a pool.
#[verifier::external_body]
pub(crate) fn pool_new(opts: mysql::Opts) -> (r: Result<mysql::Pool, mysql::Error>) {
    mysql::Pool::new(opts)
}

/// Relies on mysql::Pool::get_conn: draws one short-lived sub-connection
/// from the pool, or reports an error.
#[verifier::external_body]
pub(crate) fn pool_get_conn(pool: &mysql::Pool) -> (r: Result<mysql::PooledConn, mysql::Error>) {
    pool.get_conn()
}

/// Relies on mysql's Queryable::query_iter: submits the query text
/// verbatim over the given sub-connection; on acceptance the result
/// iterator yields the produced rows, in driver order. A result set ends
/// at the first row that cannot be read: that row is the one `Err`
/// entry, and the driver delivers no row after it. The sub-connection is
/// consumed here, so it is returned to the pool exactly once, before
/// this function returns, whether the query was accepted or not.
#[verifier::external_body]
pub(crate) fn fetch_rows(conn: mysql::PooledConn, query: &String) -> (r: Result<
    Vec<Result<mysql::Row, mysql::Error>>,
    mysql::Error,
>) {
    let mut conn = conn;
    conn.query_iter(query.as_str()).map(|result| result.collect())
}

/// Relies on mysql::Row::unwrap_raw: hands out the row's column values
/// left to right, one entry per column, without failing; an entry is
/// `None` only for a column that was already taken out of the row, which
/// never happens to a freshly fetched row.
#[verifier::external_body]
pub(crate) fn row_values(row: mysql::Row) -> (r: Vec<Option<mysql::Value>>) {
    row.unwrap_raw()
}

/// Relies on mysql::from_value_opt::<String>: decodes a native value to
/// text exactly when it is a bytes value holding valid UTF-8, and
/// reports every other value (a true NULL is told apart first) as
/// undecodable.
#[verifier::external_body]
pub(crate) fn decode_value(v: mysql::Value) -> (c: CellValue) {
    if let mysql::Value::NULL = v {
        CellValue::Null
    } else {
        match mysql::from_value_opt::<String>(v) {
            Ok(s) => CellValue::Text(s),
            Err(_) => CellValue::Undecodable,
        }
    }
}

/// Relies on the Display impl of mysql::Error for a human-readable
/// account of the underlying cause.
#[verifier::external_body]
pub(crate) fn error_text(e: &mysql::Error) -> (s: String) {
    format!("{}", e)
}

/// Relies on std::io::stdout and writeln: emits one human-readable
/// status line for observability.
#[verifier::external_body]
pub(crate) fn emit_status(msg: &str) {
    let _ = writeln!(std::io::stdout(), "{}", msg);
}

} // verus!
