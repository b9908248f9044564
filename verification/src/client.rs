//! The two client handles. A connection-scoped client sends into the
//! shared queue, where any idle worker answers; a transaction-scoped
//! client sends into one transaction's private queue, so all its requests
//! land on the one worker holding that transaction. Every call builds its
//! command through a contracted request builder, performs one
//! request/one-reply exchange, and decodes the reply through a contracted
//! shape function; each public method's contract says that its result is
//! either its own channel failure, named as such, or arises from a
//! received reply by exactly that decode. Which reply arrives crosses the
//! channels, which the trusted boundary deliberately leaves unmodeled.

use vstd::prelude::*;

verus! {

use crate::error::ActorSqlError;
use crate::external::{flume_send, oneshot_channel, oneshot_recv};
use crate::model::{
    ActorSqliteRow, CmdReq, CmdResult, ConnCmdReq, ConnCmdRsp, RspWrapper, SqlValueVec, TxCmdReq,
    TxCmdRsp,
};

/// A handle on one open transaction: every request goes to the worker
/// that opened it, in order.
#[derive(Clone)]
pub struct ActorSqliteTxClient {
    pub inner: flume::Sender<RspWrapper<TxCmdReq, TxCmdRsp>>,
}

/// A connection-scoped handle: cheap to clone, shared by many callers.
#[derive(Clone)]
pub struct ActorSqliteConnClient {
    pub inner: flume::Sender<RspWrapper<ConnCmdReq, ConnCmdRsp>>,
}

/// A failure a client call adds itself: one of the two channel halves of
/// its own exchange failed (the send into the queue, or the wait for the
/// single reply), surfaced as the channel-error variant naming which.
pub open spec fn own_channel_error(e: ActorSqlError) -> bool {
    e matches ActorSqlError::ActorErrorWithDesc(_, d) && (d@ == "flume send error"@ || d@
        == "oneshot recv error"@)
}

/// The connection-scoped command running one mutating statement.
pub fn exec_request(sql: String, params: SqlValueVec) -> (r: ConnCmdReq)
    ensures
        r matches ConnCmdReq::Command(c) && c matches CmdReq::Exec { sql: s, params: p } && s
            == sql && p == params,
{
    ConnCmdReq::Command(CmdReq::Exec { sql, params })
}

/// The connection-scoped command running one read statement.
pub fn query_request(sql: String, params: SqlValueVec) -> (r: ConnCmdReq)
    ensures
        r matches ConnCmdReq::Command(c) && c matches CmdReq::QueryMap { sql: s, params: p } && s
            == sql && p == params,
{
    ConnCmdReq::Command(CmdReq::QueryMap { sql, params })
}

/// The connection-scoped command opening a transaction.
pub fn transaction_request() -> (r: ConnCmdReq)
    ensures
        r is Transaction,
{
    ConnCmdReq::Transaction
}

/// The transaction-scoped command running one mutating statement.
pub fn tx_exec_request(sql: String, params: SqlValueVec) -> (r: TxCmdReq)
    ensures
        r matches TxCmdReq::Command(c) && c matches CmdReq::Exec { sql: s, params: p } && s == sql
            && p == params,
{
    TxCmdReq::Command(CmdReq::Exec { sql, params })
}

/// The transaction-scoped command running one read statement.
pub fn tx_query_request(sql: String, params: SqlValueVec) -> (r: TxCmdReq)
    ensures
        r matches TxCmdReq::Command(c) && c matches CmdReq::QueryMap { sql: s, params: p } && s
            == sql && p == params,
{
    TxCmdReq::Command(CmdReq::QueryMap { sql, params })
}

/// The transaction-scoped command committing the transaction.
pub fn commit_request() -> (r: TxCmdReq)
    ensures
        r is Commit,
{
    TxCmdReq::Commit
}

/// The transaction-scoped command rolling the transaction back.
pub fn rollback_request() -> (r: TxCmdReq)
    ensures
        r is Rollback,
{
    TxCmdReq::Rollback
}

/// One request/one-reply exchange: sends the command with a fresh reply
/// channel into the queue and blocks for the single reply. `Ok` is the
/// reply exactly as received; `Err` is this exchange's own channel
/// failure, always the channel-error variant naming which half failed —
/// never a database error.
fn exchange<Req, Rsp>(tx: &flume::Sender<RspWrapper<Req, Rsp>>, command: Req) -> (r: Result<
    Result<Rsp, ActorSqlError>,
    ActorSqlError,
>)
    ensures
        r matches Err(e) ==> own_channel_error(e),
{
    let (otx, orx) = oneshot_channel();
    match flume_send(tx, RspWrapper { command, otx }) {
        Ok(()) => {},
        Err(e) => {
            return Err(e);
        },
    }
    match oneshot_recv(orx) {
        Ok(inner_result) => Ok(inner_result),
        Err(e) => Err(e),
    }
}

/// How an affected-row count is read out of a connection-scoped reply:
/// exactly the count a well-shaped reply carries, and the protocol-shape
/// error with its fixed text on any other reply.
pub open spec fn spec_exec_decode(rsp: ConnCmdRsp, r: Result<usize, ActorSqlError>) -> bool {
    &&& (rsp matches ConnCmdRsp::Cmd(CmdResult::Exec(n)) ==> r == Ok::<usize, ActorSqlError>(n))
    &&& (!(rsp matches ConnCmdRsp::Cmd(CmdResult::Exec(_))) ==> (r matches Err(e) && e
        matches ActorSqlError::RusqliteBuildError(m) && m@ == "affected size"@))
}

/// How rows are read out of a connection-scoped reply: passed through
/// unmodified, or the protocol-shape error with its fixed text.
pub open spec fn spec_query_decode(rsp: ConnCmdRsp, r: Result<
    Vec<ActorSqliteRow>,
    ActorSqlError,
>) -> bool {
    &&& (rsp matches ConnCmdRsp::Cmd(CmdResult::QueryMap(rows)) ==> (r matches Ok(out) && out
        == rows))
    &&& (!(rsp matches ConnCmdRsp::Cmd(CmdResult::QueryMap(_))) ==> (r matches Err(e) && e
        matches ActorSqlError::RusqliteBuildError(m) && m@ == "not query result"@))
}

/// How a transaction handle is read out of a connection-scoped reply: a
/// handle wrapping exactly the private queue the worker sent, or the
/// protocol-shape error with its fixed text.
pub open spec fn spec_tx_handle_decode(rsp: ConnCmdRsp, r: Result<
    ActorSqliteTxClient,
    ActorSqlError,
>) -> bool {
    &&& (rsp matches ConnCmdRsp::Tx(tx) ==> (r matches Ok(c) && c.inner == tx))
    &&& (!(rsp matches ConnCmdRsp::Tx(_)) ==> (r matches Err(e) && e
        matches ActorSqlError::RusqliteBuildError(m) && m@ == "unable to create tx client"@))
}

/// How an affected-row count is read out of a transaction-scoped reply.
pub open spec fn spec_tx_exec_decode(rsp: TxCmdRsp, r: Result<usize, ActorSqlError>) -> bool {
    &&& (rsp matches TxCmdRsp::Cmd(CmdResult::Exec(n)) ==> r == Ok::<usize, ActorSqlError>(n))
    &&& (!(rsp matches TxCmdRsp::Cmd(CmdResult::Exec(_))) ==> (r matches Err(e) && e
        matches ActorSqlError::LiteralError(m) && m@ == "affected size"@))
}

/// How rows are read out of a transaction-scoped reply.
pub open spec fn spec_tx_query_decode(rsp: TxCmdRsp, r: Result<
    Vec<ActorSqliteRow>,
    ActorSqlError,
>) -> bool {
    &&& (rsp matches TxCmdRsp::Cmd(CmdResult::QueryMap(rows)) ==> (r matches Ok(out) && out
        == rows))
    &&& (!(rsp matches TxCmdRsp::Cmd(CmdResult::QueryMap(_))) ==> (r matches Err(e) && e
        matches ActorSqlError::LiteralError(m) && m@ == "not query result"@))
}

/// How a commit acknowledgement is read: `Ok` exactly on `Committed`.
pub open spec fn spec_commit_decode(rsp: TxCmdRsp, r: Result<(), ActorSqlError>) -> bool {
    &&& (rsp is Committed <==> r is Ok)
    &&& (!(rsp is Committed) ==> (r matches Err(e) && e matches ActorSqlError::LiteralError(m)
        && m@ == "fail to commit"@))
}

/// How a rollback acknowledgement is read: `Ok` exactly on `Rollbacked`.
pub open spec fn spec_rollback_decode(rsp: TxCmdRsp, r: Result<(), ActorSqlError>) -> bool {
    &&& (rsp is Rollbacked <==> r is Ok)
    &&& (!(rsp is Rollbacked) ==> (r matches Err(e) && e matches ActorSqlError::LiteralError(m)
        && m@ == "fail to rollback"@))
}

/// Reads an affected-row count out of a connection-scoped reply, as
/// [`spec_exec_decode`] fixes for every reply.
pub fn conn_exec_count(rsp: ConnCmdRsp) -> (r: Result<usize, ActorSqlError>)
    ensures
        spec_exec_decode(rsp, r),
{
    match rsp {
        ConnCmdRsp::Cmd(CmdResult::Exec(count)) => Ok(count),
        _ => Err(ActorSqlError::RusqliteBuildError("affected size".to_owned())),
    }
}

/// Reads rows out of a connection-scoped reply, as [`spec_query_decode`]
/// fixes for every reply.
pub fn conn_query_rows(rsp: ConnCmdRsp) -> (r: Result<Vec<ActorSqliteRow>, ActorSqlError>)
    ensures
        spec_query_decode(rsp, r),
{
    match rsp {
        ConnCmdRsp::Cmd(CmdResult::QueryMap(rows)) => Ok(rows),
        _ => Err(ActorSqlError::RusqliteBuildError("not query result".to_owned())),
    }
}

/// Reads a transaction handle out of a connection-scoped reply, as
/// [`spec_tx_handle_decode`] fixes for every reply.
pub fn conn_tx_handle(rsp: ConnCmdRsp) -> (r: Result<ActorSqliteTxClient, ActorSqlError>)
    ensures
        spec_tx_handle_decode(rsp, r),
{
    match rsp {
        ConnCmdRsp::Tx(tx) => Ok(ActorSqliteTxClient { inner: tx }),
        _ => Err(ActorSqlError::RusqliteBuildError("unable to create tx client".to_owned())),
    }
}

/// Reads an affected-row count out of a transaction-scoped reply, as
/// [`spec_tx_exec_decode`] fixes for every reply.
pub fn tx_exec_count(rsp: TxCmdRsp) -> (r: Result<usize, ActorSqlError>)
    ensures
        spec_tx_exec_decode(rsp, r),
{
    match rsp {
        TxCmdRsp::Cmd(CmdResult::Exec(count)) => Ok(count),
        _ => Err(ActorSqlError::LiteralError("affected size".to_owned())),
    }
}

/// Reads rows out of a transaction-scoped reply, as
/// [`spec_tx_query_decode`] fixes for every reply.
pub fn tx_query_rows(rsp: TxCmdRsp) -> (r: Result<Vec<ActorSqliteRow>, ActorSqlError>)
    ensures
        spec_tx_query_decode(rsp, r),
{
    match rsp {
        TxCmdRsp::Cmd(CmdResult::QueryMap(rows)) => Ok(rows),
        _ => Err(ActorSqlError::LiteralError("not query result".to_owned())),
    }
}

/// Accepts exactly the commit acknowledgement, as [`spec_commit_decode`]
/// fixes for every reply.
pub fn tx_committed(rsp: TxCmdRsp) -> (r: Result<(), ActorSqlError>)
    ensures
        spec_commit_decode(rsp, r),
{
    match rsp {
        TxCmdRsp::Committed => Ok(()),
        _ => Err(ActorSqlError::LiteralError("fail to commit".to_owned())),
    }
}

/// Accepts exactly the rollback acknowledgement, as
/// [`spec_rollback_decode`] fixes for every reply.
pub fn tx_rollbacked(rsp: TxCmdRsp) -> (r: Result<(), ActorSqlError>)
    ensures
        spec_rollback_decode(rsp, r),
{
    match rsp {
        TxCmdRsp::Rollbacked => Ok(()),
        _ => Err(ActorSqlError::LiteralError("fail to rollback".to_owned())),
    }
}

/// The result arises from the given received reply: the reply's own error
/// is passed through unchanged, a well-received reply is decoded by
/// [`spec_exec_decode`].
pub open spec fn spec_execute_result(
    reply: Result<ConnCmdRsp, ActorSqlError>,
    r: Result<usize, ActorSqlError>,
) -> bool {
    match reply {
        Ok(rsp) => spec_exec_decode(rsp, r),
        Err(e) => r == Err::<usize, ActorSqlError>(e),
    }
}

/// As [`spec_execute_result`], with [`spec_query_decode`].
pub open spec fn spec_query_result(
    reply: Result<ConnCmdRsp, ActorSqlError>,
    r: Result<Vec<ActorSqliteRow>, ActorSqlError>,
) -> bool {
    match reply {
        Ok(rsp) => spec_query_decode(rsp, r),
        Err(e) => r == Err::<Vec<ActorSqliteRow>, ActorSqlError>(e),
    }
}

/// As [`spec_execute_result`], with [`spec_tx_handle_decode`].
pub open spec fn spec_transaction_result(
    reply: Result<ConnCmdRsp, ActorSqlError>,
    r: Result<ActorSqliteTxClient, ActorSqlError>,
) -> bool {
    match reply {
        Ok(rsp) => spec_tx_handle_decode(rsp, r),
        Err(e) => r == Err::<ActorSqliteTxClient, ActorSqlError>(e),
    }
}

/// As [`spec_execute_result`], with [`spec_tx_exec_decode`].
pub open spec fn spec_tx_execute_result(
    reply: Result<TxCmdRsp, ActorSqlError>,
    r: Result<usize, ActorSqlError>,
) -> bool {
    match reply {
        Ok(rsp) => spec_tx_exec_decode(rsp, r),
        Err(e) => r == Err::<usize, ActorSqlError>(e),
    }
}

/// As [`spec_execute_result`], with [`spec_tx_query_decode`].
pub open spec fn spec_tx_query_result(
    reply: Result<TxCmdRsp, ActorSqlError>,
    r: Result<Vec<ActorSqliteRow>, ActorSqlError>,
) -> bool {
    match reply {
        Ok(rsp) => spec_tx_query_decode(rsp, r),
        Err(e) => r == Err::<Vec<ActorSqliteRow>, ActorSqlError>(e),
    }
}

/// As [`spec_execute_result`], with [`spec_commit_decode`].
pub open spec fn spec_commit_result(
    reply: Result<TxCmdRsp, ActorSqlError>,
    r: Result<(), ActorSqlError>,
) -> bool {
    match reply {
        Ok(rsp) => spec_commit_decode(rsp, r),
        Err(e) => r == Err::<(), ActorSqlError>(e),
    }
}

/// As [`spec_execute_result`], with [`spec_rollback_decode`].
pub open spec fn spec_rollback_result(
    reply: Result<TxCmdRsp, ActorSqlError>,
    r: Result<(), ActorSqlError>,
) -> bool {
    match reply {
        Ok(rsp) => spec_rollback_decode(rsp, r),
        Err(e) => r == Err::<(), ActorSqlError>(e),
    }
}

impl ActorSqliteConnClient {
    /// Runs one mutating statement on some idle worker's connection:
    /// sends the command [`exec_request`] builds from `sql` and `params`
    /// and awaits the single reply. The result is either this call's own
    /// channel failure, named as such, or arises from a received reply by
    /// exactly [`spec_execute_result`].
    pub fn execute(&self, sql: String, params: SqlValueVec) -> (r: Result<usize, ActorSqlError>)
        ensures
            (r matches Err(e) && own_channel_error(e)) || exists|
                reply: Result<ConnCmdRsp, ActorSqlError>,
            | spec_execute_result(reply, r),
    {
        let req = exec_request(sql, params);
        match exchange(&self.inner, req) {
            Err(e) => Err(e),
            Ok(reply) => {
                let ghost rep = reply;
                let out = match reply {
                    Ok(rsp) => conn_exec_count(rsp),
                    Err(e) => Err(e),
                };
                proof {
                    assert(spec_execute_result(rep, out));
                }
                out
            },
        }
    }

    /// Runs one read statement on some idle worker's connection: sends
    /// the command [`query_request`] builds and awaits the single reply.
    /// The result is either this call's own channel failure, named as
    /// such, or arises from a received reply by exactly
    /// [`spec_query_result`]; rows pass through unmodified.
    pub fn query(&self, sql: String, params: SqlValueVec) -> (r: Result<
        Vec<ActorSqliteRow>,
        ActorSqlError,
    >)
        ensures
            (r matches Err(e) && own_channel_error(e)) || exists|
                reply: Result<ConnCmdRsp, ActorSqlError>,
            | spec_query_result(reply, r),
    {
        let req = query_request(sql, params);
        match exchange(&self.inner, req) {
            Err(e) => Err(e),
            Ok(reply) => {
                let ghost rep = reply;
                let out = match reply {
                    Ok(rsp) => conn_query_rows(rsp),
                    Err(e) => Err(e),
                };
                proof {
                    assert(spec_query_result(rep, out));
                }
                out
            },
        }
    }

    /// Opens a transaction: sends [`transaction_request`]'s command and
    /// awaits the single reply. The answering worker issues `BEGIN`,
    /// leaves the shared queue, and replies with the send end of its
    /// fresh private queue, which the returned handle wraps exactly
    /// ([`spec_transaction_result`]); otherwise the result is this call's
    /// own channel failure, named as such.
    pub fn transaction(&self) -> (r: Result<ActorSqliteTxClient, ActorSqlError>)
        ensures
            (r matches Err(e) && own_channel_error(e)) || exists|
                reply: Result<ConnCmdRsp, ActorSqlError>,
            | spec_transaction_result(reply, r),
    {
        let req = transaction_request();
        match exchange(&self.inner, req) {
            Err(e) => Err(e),
            Ok(reply) => {
                let ghost rep = reply;
                let out = match reply {
                    Ok(rsp) => conn_tx_handle(rsp),
                    Err(e) => Err(e),
                };
                proof {
                    assert(spec_transaction_result(rep, out));
                }
                out
            },
        }
    }
}

impl ActorSqliteTxClient {
    /// Runs one mutating statement inside the open transaction: sends the
    /// command [`tx_exec_request`] builds into the transaction's private
    /// queue and awaits the single reply. A database error in the reply
    /// passes through unchanged and leaves the transaction open for an
    /// explicit commit or rollback; the result is either this call's own
    /// channel failure, named as such, or arises from a received reply by
    /// exactly [`spec_tx_execute_result`].
    pub fn execute(&self, sql: String, params: SqlValueVec) -> (r: Result<usize, ActorSqlError>)
        ensures
            (r matches Err(e) && own_channel_error(e)) || exists|
                reply: Result<TxCmdRsp, ActorSqlError>,
            | spec_tx_execute_result(reply, r),
    {
        let req = tx_exec_request(sql, params);
        match exchange(&self.inner, req) {
            Err(e) => Err(e),
            Ok(reply) => {
                let ghost rep = reply;
                let out = match reply {
                    Ok(rsp) => tx_exec_count(rsp),
                    Err(e) => Err(e),
                };
                proof {
                    assert(spec_tx_execute_result(rep, out));
                }
                out
            },
        }
    }

    /// Runs one read statement inside the open transaction, as
    /// [`Self::execute`] does, decoding by [`spec_tx_query_result`].
    pub fn query(&self, sql: String, params: SqlValueVec) -> (r: Result<
        Vec<ActorSqliteRow>,
        ActorSqlError,
    >)
        ensures
            (r matches Err(e) && own_channel_error(e)) || exists|
                reply: Result<TxCmdRsp, ActorSqlError>,
            | spec_tx_query_result(reply, r),
    {
        let req = tx_query_request(sql, params);
        match exchange(&self.inner, req) {
            Err(e) => Err(e),
            Ok(reply) => {
                let ghost rep = reply;
                let out = match reply {
                    Ok(rsp) => tx_query_rows(rsp),
                    Err(e) => Err(e),
                };
                proof {
                    assert(spec_tx_query_result(rep, out));
                }
                out
            },
        }
    }

    /// Commits the transaction: sends [`commit_request`]'s command and
    /// awaits the single reply; its worker returns to the pool either
    /// way. `Ok` arises exactly from the commit acknowledgement
    /// ([`spec_commit_result`]); otherwise the result is the reply's own
    /// error, or this call's own channel failure, named as such.
    pub fn commit(&self) -> (r: Result<(), ActorSqlError>)
        ensures
            (r matches Err(e) && own_channel_error(e)) || exists|
                reply: Result<TxCmdRsp, ActorSqlError>,
            | spec_commit_result(reply, r),
    {
        let req = commit_request();
        match exchange(&self.inner, req) {
            Err(e) => Err(e),
            Ok(reply) => {
                let ghost rep = reply;
                let out = match reply {
                    Ok(rsp) => tx_committed(rsp),
                    Err(e) => Err(e),
                };
                proof {
                    assert(spec_commit_result(rep, out));
                }
                out
            },
        }
    }

    /// Rolls the transaction back, as [`Self::commit`] does, decoding by
    /// [`spec_rollback_result`].
    pub fn rollback(&self) -> (r: Result<(), ActorSqlError>)
        ensures
            (r matches Err(e) && own_channel_error(e)) || exists|
                reply: Result<TxCmdRsp, ActorSqlError>,
            | spec_rollback_result(reply, r),
    {
        let req = rollback_request();
        match exchange(&self.inner, req) {
            Err(e) => Err(e),
            Ok(reply) => {
                let ghost rep = reply;
                let out = match reply {
                    Ok(rsp) => tx_rollbacked(rsp),
                    Err(e) => Err(e),
                };
                proof {
                    assert(spec_rollback_result(rep, out));
                }
                out
            },
        }
    }
}

} // verus!
