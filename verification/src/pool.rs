//! The pool: owns the shared request queue, spawns workers, and heals
//! itself. Every `get` first checks the number of live shared-queue
//! consumers against the configured size and builds replacement workers
//! for the deficit; the caller runs the returned workers, so healing is
//! bounded by one acquisition's latency.

use vstd::prelude::*;

verus! {

use crate::client::ActorSqliteConnClient;
use crate::error::ActorSqlError;
use crate::external::{
    conn_execute_batch, conn_open, conn_open_in_memory, flume_receiver_count, flume_unbounded,
};
use crate::model::ConnEnvelope;
use crate::protocol::worker_deficit;
use crate::worker::Worker;

/// What a pool is built from: how many workers to keep alive (1 when
/// unspecified), which database file to open (an in-memory database when
/// unspecified), and the statements run once on every fresh connection
/// (pragmas, migrations).
#[derive(Debug)]
pub struct PoolConfig {
    pub pool_size: Option<u32>,
    pub db_path: Option<String>,
    pub init_sqls: Vec<String>,
}

impl PoolConfig {
    /// The number of workers the pool keeps alive.
    pub open spec fn spec_target(self) -> int {
        match self.pool_size {
            Some(n) => n as int,
            None => 1,
        }
    }

    /// The configured worker count; 1 when unspecified.
    pub fn target_size(&self) -> (n: usize)
        ensures
            n as int == self.spec_target(),
    {
        match self.pool_size {
            Some(n) => n as usize,
            None => 1,
        }
    }

    /// Opens a fresh connection: the configured file, or an in-memory
    /// database. A failure is the driver's, surfaced as the database-error
    /// variant.
    fn open_conn(&self) -> (r: Result<rusqlite::Connection, ActorSqlError>)
        ensures
            r matches Err(e) ==> e is CustomRusqliteError,
    {
        match &self.db_path {
            Some(path) => conn_open(path.as_str()),
            None => conn_open_in_memory(),
        }
    }

    /// Opens and initializes one connection and binds a fresh worker to
    /// it: the worker competes on the shared queue and holds no
    /// transaction. Any open or initialization failure is reported, never
    /// swallowed.
    pub fn make_worker(&self, shared_rx: &flume::Receiver<ConnEnvelope>) -> (r: Result<
        Worker,
        ActorSqlError,
    >)
        ensures
            r matches Ok(w) ==> !w.in_tx() && w.shared_rx == *shared_rx,
            r matches Err(e) ==> e is CustomRusqliteError,
    {
        let conn = match self.open_conn() {
            Ok(c) => c,
            Err(e) => {
                return Err(e);
            },
        };
        let mut i: usize = 0;
        while i < self.init_sqls.len()
            invariant
                i <= self.init_sqls@.len(),
            decreases self.init_sqls@.len() - i,
        {
            match conn_execute_batch(&conn, self.init_sqls[i].as_str()) {
                Ok(()) => {},
                Err(e) => {
                    return Err(e);
                },
            }
            i = i + 1;
        }
        Ok(Worker::new(conn, shared_rx.clone()))
    }
}

/// The pool itself: both ends of the shared queue, and the configuration
/// it heals towards. The pool never executes a statement; workers do.
pub struct InnerActorSqlitePool {
    pub worker_tx: flume::Sender<ConnEnvelope>,
    pub worker_rx: flume::Receiver<ConnEnvelope>,
    pub config: PoolConfig,
}

/// The shared-ownership face of the pool.
pub type ActorSqlitePool = std::sync::Arc<InnerActorSqlitePool>;

impl InnerActorSqlitePool {
    /// Builds the pool and its initial workers: exactly the configured
    /// number, each bound to a freshly opened and initialized connection
    /// and holding no transaction. A single failure to open or initialize
    /// a connection fails construction as a whole. The caller runs the
    /// returned workers.
    pub fn try_new(config: PoolConfig) -> (r: Result<
        (InnerActorSqlitePool, Vec<Worker>),
        ActorSqlError,
    >)
        ensures
            r matches Ok(pw) ==> {
                &&& pw.0.config == config
                &&& pw.1@.len() as int == config.spec_target()
                &&& forall|i: int| 0 <= i < pw.1@.len() ==> !pw.1@[i].in_tx()
                &&& forall|i: int| 0 <= i < pw.1@.len() ==> pw.1@[i].shared_rx == pw.0.worker_rx
            },
            r matches Err(e) ==> e is CustomRusqliteError,
    {
        let (worker_tx, worker_rx) = flume_unbounded::<ConnEnvelope>();
        let n = config.target_size();
        let mut workers: Vec<Worker> = Vec::new();
        let mut i: usize = 0;
        while i < n
            invariant
                i <= n,
                workers@.len() == i,
                forall|j: int| 0 <= j < i ==> !workers@[j].in_tx(),
                forall|j: int| 0 <= j < i ==> workers@[j].shared_rx == worker_rx,
            decreases n - i,
        {
            match config.make_worker(&worker_rx) {
                Ok(w) => {
                    workers.push(w);
                },
                Err(e) => {
                    return Err(e);
                },
            }
            i = i + 1;
        }
        Ok((InnerActorSqlitePool { worker_tx, worker_rx, config }, workers))
    }

    /// Heals the pool: counts the live shared-queue consumers and builds
    /// one replacement worker per missing consumer, so the capacity
    /// returns to the configured size. The pool's own held receive end is
    /// one of the counted handles but never consumes, so it is left out.
    /// Each returned worker already counts as live; the caller runs them.
    /// A failure to open or initialize a replacement connection is a
    /// recoverable error on this call.
    pub fn check_size(&self) -> (r: Result<Vec<Worker>, ActorSqlError>)
        ensures
            r matches Ok(ws) ==> forall|i: int| 0 <= i < ws@.len() ==> !ws@[i].in_tx()
                && ws@[i].shared_rx == self.worker_rx,
            r matches Ok(ws) ==> ws@.len() as int <= self.config.spec_target(),
            r matches Err(e) ==> e is CustomRusqliteError,
    {
        let count = flume_receiver_count(&self.worker_tx);
        let live = if count > 0 {
            count - 1
        } else {
            0
        };
        let target = self.config.target_size();
        let need = worker_deficit(live, target);
        let mut workers: Vec<Worker> = Vec::new();
        let mut i: usize = 0;
        while i < need
            invariant
                i <= need,
                need as int <= self.config.spec_target(),
                workers@.len() == i,
                forall|j: int| 0 <= j < workers@.len() ==> !workers@[j].in_tx()
                    && workers@[j].shared_rx == self.worker_rx,
            decreases need - i,
        {
            match self.config.make_worker(&self.worker_rx) {
                Ok(w) => {
                    workers.push(w);
                },
                Err(e) => {
                    return Err(e);
                },
            }
            i = i + 1;
        }
        Ok(workers)
    }

    /// Heals the pool, then hands out a connection-scoped client wrapping
    /// a cheap clone of this pool's own shared queue send end, so every
    /// handle routes into the one queue the pool's workers compete on. The
    /// caller runs the returned replacement workers.
    pub fn get(&self) -> (r: Result<(ActorSqliteConnClient, Vec<Worker>), ActorSqlError>)
        ensures
            r matches Ok(cw) ==> cw.0.inner == self.worker_tx,
            r matches Ok(cw) ==> forall|i: int| 0 <= i < cw.1@.len() ==> !cw.1@[i].in_tx()
                && cw.1@[i].shared_rx == self.worker_rx,
            r matches Ok(cw) ==> cw.1@.len() as int <= self.config.spec_target(),
            r matches Err(e) ==> e is CustomRusqliteError,
    {
        let workers = match self.check_size() {
            Ok(ws) => ws,
            Err(e) => {
                return Err(e);
            },
        };
        let client = ActorSqliteConnClient { inner: self.worker_tx.clone() };
        Ok((client, workers))
    }
}

} // verus!
