//! The worker: an actor owning exactly one live connection. It reads the
//! shared pool queue while idle; answering a transaction request issues a
//! real `BEGIN`, hands the caller a fresh private queue, and parks the
//! worker on that queue until the transaction commits, rolls back, or is
//! abandoned. Every phase change is pinned to [`crate::protocol::step`].
//!
//! A transaction handle dropped without commit or rollback closes the
//! private queue; the worker then rolls the lost transaction back and
//! returns to the pool.

use vstd::prelude::*;

verus! {

use crate::error::ActorSqlError;
use crate::external::{
    conn_execute, conn_query, flume_recv, flume_try_recv, flume_unbounded, oneshot_send,
};
use crate::model::{
    CmdReq, CmdResult, ConnCmdReq, ConnCmdRsp, ConnEnvelope, TryRecvOutcome, TxCmdReq, TxCmdRsp,
    TxEnvelope,
};
use crate::protocol::{step, ProtoReq, WorkerPhase};

/// What one service step did.
#[derive(Clone, Copy, Debug, PartialEq, Eq, Structural)]
pub enum ServeOutcome {
    /// Nothing was pending on the queue the worker reads.
    Empty,
    /// The queue the worker reads while idle is closed: the pool is gone.
    Closed,
    /// A plain command was executed and answered.
    PlainDone,
    /// A transaction request was answered: `BEGIN` succeeded and the
    /// caller holds the private queue's send end.
    BeginOk,
    /// A transaction request was answered with the driver's error;
    /// the worker stays in the pool.
    BeginFailed,
    /// A command inside the open transaction was executed and answered.
    TxCmdDone,
    /// The open transaction was committed (or, if `COMMIT` failed, rolled
    /// back and the error answered); the worker returns to the pool.
    CommitDone,
    /// The open transaction was rolled back; the worker returns to the
    /// pool.
    RollbackDone,
    /// The private queue closed with the transaction still open: it was
    /// rolled back and the worker returns to the pool.
    Abandoned,
}

/// The request kind an outcome answered, for reading a step against the
/// protocol model.
pub open spec fn outcome_req(o: ServeOutcome) -> ProtoReq {
    match o {
        ServeOutcome::PlainDone => ProtoReq::Plain,
        ServeOutcome::BeginOk => ProtoReq::Begin,
        ServeOutcome::BeginFailed => ProtoReq::Begin,
        ServeOutcome::TxCmdDone => ProtoReq::TxPlain,
        ServeOutcome::CommitDone => ProtoReq::TxCommit,
        ServeOutcome::RollbackDone => ProtoReq::TxRollback,
        ServeOutcome::Abandoned => ProtoReq::TxAbandon,
        _ => ProtoReq::Plain,
    }
}

/// Whether the statement behind the outcome succeeded, as far as the
/// phase depends on it.
pub open spec fn outcome_ok(o: ServeOutcome) -> bool {
    !(o is BeginFailed)
}

/// An actor owning one live connection and the queue it currently reads.
pub struct Worker {
    pub conn: rusqlite::Connection,
    pub shared_rx: flume::Receiver<ConnEnvelope>,
    pub tx_rx: Option<flume::Receiver<TxEnvelope>>,
}

impl Worker {
    /// Whether this worker holds an open transaction.
    pub open spec fn in_tx(self) -> bool {
        self.tx_rx is Some
    }

    /// The protocol phase this worker is in.
    pub open spec fn phase(self) -> WorkerPhase {
        if self.in_tx() {
            WorkerPhase::TxOpen
        } else {
            WorkerPhase::Idle
        }
    }

    /// A fresh worker: idle in the pool, reading the shared queue.
    pub fn new(conn: rusqlite::Connection, shared_rx: flume::Receiver<ConnEnvelope>) -> (r: Self)
        ensures
            !r.in_tx(),
            r.conn == conn,
            r.shared_rx == shared_rx,
    {
        Worker { conn, shared_rx, tx_rx: None }
    }

    /// Runs one plain command to completion on this worker's connection.
    /// A well-shaped reply always answers the request it was made for:
    /// a mutating command yields an affected count, a read yields rows.
    /// A failure here is always the driver's, surfaced as the
    /// database-error variant — never a channel error.
    fn exec_cmd(&self, cmd: &CmdReq) -> (r: Result<CmdResult, ActorSqlError>)
        ensures
            r matches Ok(res) ==> ((cmd is Exec <==> res is Exec) && (cmd is QueryMap <==> res
                is QueryMap)),
            r matches Err(e) ==> e is CustomRusqliteError,
    {
        match cmd {
            CmdReq::Exec { sql, params } => {
                match conn_execute(&self.conn, sql.as_str(), params) {
                    Ok(count) => Ok(CmdResult::Exec(count)),
                    Err(e) => Err(e),
                }
            },
            CmdReq::QueryMap { sql, params } => {
                match conn_query(&self.conn, sql.as_str(), params) {
                    Ok(rows) => Ok(CmdResult::QueryMap(rows)),
                    Err(e) => Err(e),
                }
            },
        }
    }

    /// Answers one shared-queue request. A plain command leaves the worker
    /// idle; a transaction request opens a transaction exactly when the
    /// `BEGIN` statement succeeded, and then parks the worker on the fresh
    /// private queue whose send end the caller received.
    fn handle_conn(&mut self, env: ConnEnvelope) -> (r: ServeOutcome)
        requires
            !old(self).in_tx(),
        ensures
            r is PlainDone || r is BeginOk || r is BeginFailed,
            final(self).phase() == step(old(self).phase(), outcome_req(r), outcome_ok(r)),
            env.command is Command ==> r is PlainDone,
            env.command is Transaction ==> (r is BeginOk || r is BeginFailed),
            final(self).conn == old(self).conn,
            final(self).shared_rx == old(self).shared_rx,
    {
        match env.command {
            ConnCmdReq::Command(cmd) => {
                let res = self.exec_cmd(&cmd);
                let rsp = match res {
                    Ok(out) => Ok(ConnCmdRsp::Cmd(out)),
                    Err(e) => Err(e),
                };
                let _ = oneshot_send(env.otx, rsp);
                ServeOutcome::PlainDone
            },
            ConnCmdReq::Transaction => {
                let no_params: Vec<rusqlite::types::Value> = Vec::new();
                match conn_execute(&self.conn, "BEGIN", &no_params) {
                    Ok(_) => {
                        let (ptx, prx) = flume_unbounded::<TxEnvelope>();
                        let _ = oneshot_send(env.otx, Ok(ConnCmdRsp::Tx(ptx)));
                        self.tx_rx = Some(prx);
                        ServeOutcome::BeginOk
                    },
                    Err(e) => {
                        let _ = oneshot_send(env.otx, Err(e));
                        ServeOutcome::BeginFailed
                    },
                }
            },
        }
    }

    /// Answers one private-queue request. A command (even a failing one)
    /// leaves the transaction open; commit and rollback resolve it and
    /// return the worker to the pool. A `COMMIT` the driver refuses is
    /// rolled back, so the connection never returns to the pool with a
    /// transaction pending.
    fn handle_tx(&mut self, env: TxEnvelope) -> (r: ServeOutcome)
        requires
            old(self).in_tx(),
        ensures
            r is TxCmdDone || r is CommitDone || r is RollbackDone,
            final(self).phase() == step(old(self).phase(), outcome_req(r), outcome_ok(r)),
            env.command is Command ==> (r is TxCmdDone && final(self).in_tx()),
            env.command is Commit ==> (r is CommitDone && !final(self).in_tx()),
            env.command is Rollback ==> (r is RollbackDone && !final(self).in_tx()),
            final(self).conn == old(self).conn,
            final(self).shared_rx == old(self).shared_rx,
    {
        let no_params: Vec<rusqlite::types::Value> = Vec::new();
        match env.command {
            TxCmdReq::Command(cmd) => {
                let res = self.exec_cmd(&cmd);
                let rsp = match res {
                    Ok(out) => Ok(TxCmdRsp::Cmd(out)),
                    Err(e) => Err(e),
                };
                let _ = oneshot_send(env.otx, rsp);
                ServeOutcome::TxCmdDone
            },
            TxCmdReq::Commit => {
                let rsp = match conn_execute(&self.conn, "COMMIT", &no_params) {
                    Ok(_) => Ok(TxCmdRsp::Committed),
                    Err(e) => {
                        let _ = conn_execute(&self.conn, "ROLLBACK", &no_params);
                        Err(e)
                    },
                };
                let _ = oneshot_send(env.otx, rsp);
                self.tx_rx = None;
                ServeOutcome::CommitDone
            },
            TxCmdReq::Rollback => {
                let rsp = match conn_execute(&self.conn, "ROLLBACK", &no_params) {
                    Ok(_) => Ok(TxCmdRsp::Rollbacked),
                    Err(e) => Err(e),
                };
                let _ = oneshot_send(env.otx, rsp);
                self.tx_rx = None;
                ServeOutcome::RollbackDone
            },
        }
    }

    /// Rolls back an abandoned transaction and returns to the pool.
    fn abandon_tx(&mut self) -> (r: ServeOutcome)
        requires
            old(self).in_tx(),
        ensures
            r is Abandoned,
            final(self).phase() == step(old(self).phase(), outcome_req(r), outcome_ok(r)),
            !final(self).in_tx(),
            final(self).conn == old(self).conn,
            final(self).shared_rx == old(self).shared_rx,
    {
        let no_params: Vec<rusqlite::types::Value> = Vec::new();
        let _ = conn_execute(&self.conn, "ROLLBACK", &no_params);
        self.tx_rx = None;
        ServeOutcome::Abandoned
    }

    /// Serves one pending request without blocking, from whichever queue
    /// this worker's phase has it read. The outcome pins the phase change
    /// to the protocol's step function; in particular, while a transaction
    /// is open only its private queue is read, and only its resolution
    /// (or abandonment) returns the worker to the pool.
    pub fn service_one(&mut self) -> (r: ServeOutcome)
        ensures
            (r is Empty || r is Closed) ==> final(self).phase() == old(self).phase(),
            !(r is Empty) && !(r is Closed) ==> final(self).phase() == step(
                old(self).phase(),
                outcome_req(r),
                outcome_ok(r),
            ),
            !old(self).in_tx() ==> (r is Empty || r is Closed || r is PlainDone || r is BeginOk
                || r is BeginFailed),
            old(self).in_tx() ==> (r is Empty || r is TxCmdDone || r is CommitDone
                || r is RollbackDone || r is Abandoned),
            final(self).conn == old(self).conn,
            final(self).shared_rx == old(self).shared_rx,
    {
        if self.tx_rx.is_none() {
            match flume_try_recv(&self.shared_rx) {
                TryRecvOutcome::Empty => ServeOutcome::Empty,
                TryRecvOutcome::Closed => ServeOutcome::Closed,
                TryRecvOutcome::Got(env) => self.handle_conn(env),
            }
        } else {
            let outcome = match &self.tx_rx {
                Some(rx) => flume_try_recv(rx),
                None => TryRecvOutcome::Empty,
            };
            match outcome {
                TryRecvOutcome::Empty => ServeOutcome::Empty,
                TryRecvOutcome::Closed => self.abandon_tx(),
                TryRecvOutcome::Got(env) => self.handle_tx(env),
            }
        }
    }

    /// Blocks on the queue this worker's phase has it read, and serves the
    /// next request. The driver of a worker calls this in a loop until it
    /// reports `Closed`. The same transition contract as
    /// [`Self::service_one`] holds, so a worker driven this way reads its
    /// private queue exactly while its transaction is open.
    pub fn serve_blocking(&mut self) -> (r: ServeOutcome)
        ensures
            r is Closed ==> final(self).phase() == old(self).phase(),
            !(r is Empty) && !(r is Closed) ==> final(self).phase() == step(
                old(self).phase(),
                outcome_req(r),
                outcome_ok(r),
            ),
            !(r is Empty),
            !old(self).in_tx() ==> (r is Closed || r is PlainDone || r is BeginOk
                || r is BeginFailed),
            old(self).in_tx() ==> (r is TxCmdDone || r is CommitDone || r is RollbackDone
                || r is Abandoned),
            final(self).conn == old(self).conn,
            final(self).shared_rx == old(self).shared_rx,
    {
        if self.tx_rx.is_none() {
            match flume_recv(&self.shared_rx) {
                Ok(env) => self.handle_conn(env),
                Err(_) => ServeOutcome::Closed,
            }
        } else {
            let got = match &self.tx_rx {
                Some(rx) => flume_recv(rx),
                None => Err(ActorSqlError::BuilderSqlError),
            };
            match got {
                Ok(env) => self.handle_tx(env),
                Err(_) => self.abandon_tx(),
            }
        }
    }
}

} // verus!
