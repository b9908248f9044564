//! The trusted boundary: type declarations and thin wrappers for the
//! database driver and the two channel crates. Each wrapper holds one
//! outside call (the query collector, whose row cursor borrows the
//! statement and cannot cross this boundary, holds the cursor's calls) and
//! hands its outcome through unchanged: an outside error comes back as the
//! declared error type, or as its rendered text for the channel crates.
//! Every library error value is then built in verified code, so a driver
//! failure provably surfaces as `CustomRusqliteError` and a channel
//! failure as `ActorErrorWithDesc`, never the one as the other.

use vstd::prelude::*;

verus! {

use crate::error::ActorSqlError;
use crate::model::{ActorSqliteRow, RowValue, TryRecvOutcome};

#[verifier::external_type_specification]
#[verifier::external_body]
pub struct ExRusqliteConnection(rusqlite::Connection);

#[verifier::external_type_specification]
#[verifier::external_body]
pub struct ExRusqliteError(rusqlite::Error);

#[verifier::external_type_specification]
#[verifier::external_body]
pub struct ExRusqliteValue(rusqlite::types::Value);

#[verifier::external_type_specification]
#[verifier::external_body]
#[verifier::reject_recursive_types(T)]
pub struct ExFlumeSender<T>(flume::Sender<T>);

#[verifier::external_type_specification]
#[verifier::external_body]
#[verifier::reject_recursive_types(T)]
pub struct ExFlumeReceiver<T>(flume::Receiver<T>);

#[verifier::external_type_specification]
#[verifier::external_body]
#[verifier::reject_recursive_types(T)]
pub struct ExOneshotSender<T>(oneshot::Sender<T>);

#[verifier::external_type_specification]
#[verifier::external_body]
#[verifier::reject_recursive_types(T)]
pub struct ExOneshotReceiver<T>(oneshot::Receiver<T>);

#[verifier::external_type_specification]
#[verifier::external_body]
pub struct ExRusqliteStatement<'conn>(rusqlite::Statement<'conn>);

/// Relies on `rusqlite::Connection::open`: opens the database file, or
/// reports the driver's error.
#[verifier::external_body]
fn raw_conn_open(path: &str) -> (r: Result<rusqlite::Connection, rusqlite::Error>) {
    rusqlite::Connection::open(path)
}

/// Relies on `rusqlite::Connection::open_in_memory`.
#[verifier::external_body]
fn raw_conn_open_in_memory() -> (r: Result<rusqlite::Connection, rusqlite::Error>) {
    rusqlite::Connection::open_in_memory()
}

/// Relies on `rusqlite::Connection::execute` (with `params_from_iter` to
/// bind the values): runs one statement, returning how many rows changed,
/// or the driver's error.
#[verifier::external_body]
fn raw_conn_execute(
    conn: &rusqlite::Connection,
    sql: &str,
    params: &Vec<rusqlite::types::Value>,
) -> (r: Result<usize, rusqlite::Error>) {
    conn.execute(sql, rusqlite::params_from_iter(params.iter()))
}

/// Relies on `rusqlite::Connection::execute_batch`: runs the statements of
/// the text, discarding any rows they produce.
#[verifier::external_body]
fn raw_conn_execute_batch(conn: &rusqlite::Connection, sql: &str) -> (r: Result<
    (),
    rusqlite::Error,
>) {
    conn.execute_batch(sql)
}

/// Relies on `rusqlite::Connection::prepare`.
#[verifier::external_body]
fn raw_conn_prepare<'c>(conn: &'c rusqlite::Connection, sql: &str) -> (r: Result<
    rusqlite::Statement<'c>,
    rusqlite::Error,
>) {
    conn.prepare(sql)
}

/// Relies on `rusqlite::Statement::column_names`: the output column names,
/// in order, each copied to an owned string.
#[verifier::external_body]
fn stmt_column_names(stmt: &rusqlite::Statement) -> (r: Vec<String>) {
    stmt.column_names().iter().map(|s| (*s).to_owned()).collect()
}

/// Tells the variants of a returned `rusqlite::types::Value` apart, moving
/// each payload into the library's closed scalar variant; a float travels
/// as its bit pattern.
#[verifier::external_body]
fn value_to_row(v: rusqlite::types::Value) -> (r: RowValue) {
    match v {
        rusqlite::types::Value::Null => RowValue::Null,
        rusqlite::types::Value::Integer(n) => RowValue::Integer(n),
        rusqlite::types::Value::Real(x) => RowValue::FloatBits(x.to_bits()),
        rusqlite::types::Value::Text(s) => RowValue::Text(s),
        rusqlite::types::Value::Blob(b) => RowValue::Blob(b),
    }
}

/// Relies on `rusqlite::Statement::query`, `rusqlite::Rows::next` and
/// `rusqlite::Row::get`: runs the query and converts every returned scalar
/// to the library's closed variant, `ncols` per row. The row iterator
/// borrows the statement and so cannot cross this boundary; converting the
/// whole result set here keeps each row as a plain value list.
#[verifier::external_body]
fn raw_stmt_query_collect(
    stmt: &mut rusqlite::Statement,
    params: &Vec<rusqlite::types::Value>,
    ncols: usize,
) -> (r: Result<Vec<Vec<RowValue>>, rusqlite::Error>)
    ensures
        r matches Ok(rows) ==> forall|i: int| 0 <= i < rows@.len() ==> rows@[i]@.len() == ncols,
{
    let mut rows = stmt.query(rusqlite::params_from_iter(params.iter()))?;
    let mut out = Vec::new();
    while let Some(row) = rows.next()? {
        let mut vals = Vec::with_capacity(ncols);
        for i in 0..ncols {
            vals.push(value_to_row(row.get::<usize, rusqlite::types::Value>(i)?));
        }
        out.push(vals);
    }
    Ok(out)
}

/// Runs one statement; a driver failure surfaces as the database-error
/// variant.
pub(crate) fn conn_execute(
    conn: &rusqlite::Connection,
    sql: &str,
    params: &Vec<rusqlite::types::Value>,
) -> (r: Result<usize, ActorSqlError>)
    ensures
        r matches Err(e) ==> e is CustomRusqliteError,
{
    match raw_conn_execute(conn, sql, params) {
        Ok(count) => Ok(count),
        Err(e) => Err(ActorSqlError::CustomRusqliteError(e)),
    }
}

/// Runs a statement batch; a driver failure surfaces as the database-error
/// variant.
pub(crate) fn conn_execute_batch(conn: &rusqlite::Connection, sql: &str) -> (r: Result<
    (),
    ActorSqlError,
>)
    ensures
        r matches Err(e) ==> e is CustomRusqliteError,
{
    match raw_conn_execute_batch(conn, sql) {
        Ok(()) => Ok(()),
        Err(e) => Err(ActorSqlError::CustomRusqliteError(e)),
    }
}

/// Opens the database file; a driver failure surfaces as the
/// database-error variant.
pub(crate) fn conn_open(path: &str) -> (r: Result<rusqlite::Connection, ActorSqlError>)
    ensures
        r matches Err(e) ==> e is CustomRusqliteError,
{
    match raw_conn_open(path) {
        Ok(c) => Ok(c),
        Err(e) => Err(ActorSqlError::CustomRusqliteError(e)),
    }
}

/// Opens an in-memory database; a driver failure surfaces as the
/// database-error variant.
pub(crate) fn conn_open_in_memory() -> (r: Result<rusqlite::Connection, ActorSqlError>)
    ensures
        r matches Err(e) ==> e is CustomRusqliteError,
{
    match raw_conn_open_in_memory() {
        Ok(c) => Ok(c),
        Err(e) => Err(ActorSqlError::CustomRusqliteError(e)),
    }
}

/// Relies on `flume::unbounded`: a fresh queue; sends never block.
#[verifier::external_body]
pub(crate) fn flume_unbounded<T>() -> (r: (flume::Sender<T>, flume::Receiver<T>)) {
    flume::unbounded()
}

/// Relies on `flume::Sender::send`: fails exactly when every receiver is
/// gone; the error's rendered text is handed back.
#[verifier::external_body]
fn raw_flume_send<T>(tx: &flume::Sender<T>, value: T) -> (r: Result<(), String>) {
    tx.send(value).map_err(|e| format!("{e}"))
}

/// Relies on `flume::Receiver::recv`: blocks for the next message; fails
/// when the queue is empty and every sender is gone; the error's rendered
/// text is handed back.
#[verifier::external_body]
fn raw_flume_recv<T>(rx: &flume::Receiver<T>) -> (r: Result<T, String>) {
    rx.recv().map_err(|e| format!("{e}"))
}

/// Relies on `flume::Receiver::try_recv`: a pending message, or which of
/// the two reasons there was none.
#[verifier::external_body]
pub(crate) fn flume_try_recv<T>(rx: &flume::Receiver<T>) -> (r: TryRecvOutcome<T>) {
    match rx.try_recv() {
        Ok(v) => TryRecvOutcome::Got(v),
        Err(flume::TryRecvError::Empty) => TryRecvOutcome::Empty,
        Err(flume::TryRecvError::Disconnected) => TryRecvOutcome::Closed,
    }
}

/// Relies on `flume::Sender::clone`: another send handle to the same
/// queue, indistinguishable from the one cloned.
pub assume_specification<T>[ <flume::Sender<T> as Clone>::clone ](tx: &flume::Sender<T>) -> (r:
    flume::Sender<T>)
    ensures
        r == *tx,
;

/// Relies on `flume::Receiver::clone`: another competing receive handle to
/// the same queue, indistinguishable from the one cloned.
pub assume_specification<T>[ <flume::Receiver<T> as Clone>::clone ](rx: &flume::Receiver<T>) -> (r:
    flume::Receiver<T>)
    ensures
        r == *rx,
;

/// Relies on `flume::Sender::receiver_count`: how many receive handles
/// exist right now; the count may change at any moment.
#[verifier::external_body]
pub(crate) fn flume_receiver_count<T>(tx: &flume::Sender<T>) -> (r: usize) {
    tx.receiver_count()
}

/// Relies on `oneshot::channel`: a fresh single-message channel.
#[verifier::external_body]
pub(crate) fn oneshot_channel<T>() -> (r: (oneshot::Sender<T>, oneshot::Receiver<T>)) {
    oneshot::channel()
}

/// Relies on `oneshot::Sender::send`: hands the value over, or reports
/// that the receiver is gone; the error's rendered text is handed back.
#[verifier::external_body]
fn raw_oneshot_send<T>(tx: oneshot::Sender<T>, value: T) -> (r: Result<(), String>) {
    tx.send(value).map_err(|e| format!("{e}"))
}

/// Relies on `oneshot::Receiver::recv`: blocks for the value, or reports
/// that the sender was dropped without answering; the error's rendered
/// text is handed back.
#[verifier::external_body]
fn raw_oneshot_recv<T>(rx: oneshot::Receiver<T>) -> (r: Result<T, String>) {
    rx.recv().map_err(|e| format!("{e}"))
}

/// Sends into a queue; a channel failure surfaces as the channel-error
/// variant, never as a database error.
pub(crate) fn flume_send<T>(tx: &flume::Sender<T>, value: T) -> (r: Result<(), ActorSqlError>)
    ensures
        r matches Err(e) ==> e matches ActorSqlError::ActorErrorWithDesc(_, d) && d@
            == "flume send error"@,
{
    match raw_flume_send(tx, value) {
        Ok(()) => Ok(()),
        Err(source) => Err(
            ActorSqlError::ActorErrorWithDesc(source, "flume send error".to_owned()),
        ),
    }
}

/// Blocks for the next queued message; a channel failure surfaces as the
/// channel-error variant, never as a database error.
pub(crate) fn flume_recv<T>(rx: &flume::Receiver<T>) -> (r: Result<T, ActorSqlError>)
    ensures
        r matches Err(e) ==> e matches ActorSqlError::ActorErrorWithDesc(_, d) && d@
            == "flume recv error"@,
{
    match raw_flume_recv(rx) {
        Ok(v) => Ok(v),
        Err(source) => Err(
            ActorSqlError::ActorErrorWithDesc(source, "flume recv error".to_owned()),
        ),
    }
}

/// Answers a reply channel; a channel failure surfaces as the
/// channel-error variant, never as a database error.
pub(crate) fn oneshot_send<T>(tx: oneshot::Sender<T>, value: T) -> (r: Result<(), ActorSqlError>)
    ensures
        r matches Err(e) ==> e matches ActorSqlError::ActorErrorWithDesc(_, d) && d@
            == "oneshot send error"@,
{
    match raw_oneshot_send(tx, value) {
        Ok(()) => Ok(()),
        Err(source) => Err(
            ActorSqlError::ActorErrorWithDesc(source, "oneshot send error".to_owned()),
        ),
    }
}

/// Blocks for the single reply; a channel failure surfaces as the
/// channel-error variant, never as a database error.
pub(crate) fn oneshot_recv<T>(rx: oneshot::Receiver<T>) -> (r: Result<T, ActorSqlError>)
    ensures
        r matches Err(e) ==> e matches ActorSqlError::ActorErrorWithDesc(_, d) && d@
            == "oneshot recv error"@,
{
    match raw_oneshot_recv(rx) {
        Ok(v) => Ok(v),
        Err(source) => Err(
            ActorSqlError::ActorErrorWithDesc(source, "oneshot recv error".to_owned()),
        ),
    }
}

/// Runs the query against the connection and assembles the result rows:
/// row `i`'s `k`-th column is named after the statement's `k`-th output
/// column and holds the `k`-th value the driver returned for that row
/// (the pairing itself is [`ActorSqliteRow::from_columns`]). A driver
/// failure surfaces as the database-error variant.
pub(crate) fn conn_query(
    conn: &rusqlite::Connection,
    sql: &str,
    params: &Vec<rusqlite::types::Value>,
) -> (r: Result<Vec<ActorSqliteRow>, ActorSqlError>)
    ensures
        r matches Err(e) ==> e is CustomRusqliteError,
        r matches Ok(rows) ==> forall|i: int, j: int|
            0 <= i < rows@.len() && 0 <= j < rows@.len() ==> rows@[i].spec_names()
                == rows@[j].spec_names(),
{
    let mut stmt = match raw_conn_prepare(conn, sql) {
        Ok(s) => s,
        Err(e) => {
            return Err(ActorSqlError::CustomRusqliteError(e));
        },
    };
    let names = stmt_column_names(&stmt);
    let raw = match raw_stmt_query_collect(&mut stmt, params, names.len()) {
        Ok(v) => v,
        Err(e) => {
            return Err(ActorSqlError::CustomRusqliteError(e));
        },
    };
    let rows = ActorSqliteRow::from_columns(&names, raw);
    proof {
        let nv = names@.map_values(|n: String| n@);
        assert forall|i: int| 0 <= i < rows@.len() implies rows@[i].spec_names() == nv by {
            assert(rows@[i].cols@.len() == names@.len());
            assert forall|k: int|
                0 <= k < names@.len() implies rows@[i].spec_names()[k] == nv[k] by {
                assert(rows@[i].cols@[k].0@ == names@[k]@);
            }
            assert(rows@[i].spec_names() =~= nv);
        }
    }
    Ok(rows)
}

} // verus!
