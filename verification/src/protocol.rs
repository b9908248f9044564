//! The worker protocol as a pure state machine, and the laws the pool
//! design rests on: which queue a worker reads in each phase, how phases
//! move, that request handling never interleaves two requests' connection
//! work, and how healing restores the pool's capacity.

use vstd::prelude::*;

verus! {

/// A worker is idle in the pool or parked on an open transaction.
#[derive(Clone, Copy, Debug, PartialEq, Eq, Structural)]
pub enum WorkerPhase {
    Idle,
    TxOpen,
}

/// The two queues a worker can read from.
#[derive(Clone, Copy, Debug, PartialEq, Eq, Structural)]
pub enum QueueKind {
    Shared,
    Private,
}

/// The request kinds a worker can see, abstracted from their payloads.
/// The first two arrive on the shared queue, the rest on a transaction's
/// private queue; `TxAbandon` stands for the private queue closing with
/// the transaction still open.
#[derive(Clone, Copy, Debug, PartialEq, Eq, Structural)]
pub enum ProtoReq {
    Plain,
    Begin,
    TxPlain,
    TxCommit,
    TxRollback,
    TxAbandon,
}

/// One statement issued on the worker's connection.
#[derive(Clone, Copy, Debug, PartialEq, Eq, Structural)]
pub enum ConnOp {
    Statement,
    BeginStmt,
    CommitStmt,
    RollbackStmt,
}

/// Which queue a worker in this phase reads. A worker holding an open
/// transaction reads only the transaction's private queue.
pub open spec fn read_source(p: WorkerPhase) -> QueueKind {
    match p {
        WorkerPhase::Idle => QueueKind::Shared,
        WorkerPhase::TxOpen => QueueKind::Private,
    }
}

/// Whether a request kind can reach a worker in this phase at all: shared
/// requests only reach an idle worker, private ones only a worker with an
/// open transaction.
pub open spec fn admissible(p: WorkerPhase, r: ProtoReq) -> bool {
    match p {
        WorkerPhase::Idle => r is Plain || r is Begin,
        WorkerPhase::TxOpen => r is TxPlain || r is TxCommit || r is TxRollback || r is TxAbandon,
    }
}

/// The phase after one request; `ok` says whether the statement the
/// request issued succeeded. Only a successful `Begin` opens a
/// transaction; a failing statement inside a transaction leaves it open;
/// commit, rollback and abandonment always resolve it.
pub open spec fn step(p: WorkerPhase, r: ProtoReq, ok: bool) -> WorkerPhase {
    match p {
        WorkerPhase::Idle => if r is Begin && ok {
            WorkerPhase::TxOpen
        } else {
            WorkerPhase::Idle
        },
        WorkerPhase::TxOpen => if r is TxPlain {
            WorkerPhase::TxOpen
        } else {
            WorkerPhase::Idle
        },
    }
}

/// The connection statements one request issues, in order. Abandonment
/// rolls the lost transaction back before the worker returns to the pool.
pub open spec fn event_ops(p: WorkerPhase, r: ProtoReq) -> Seq<ConnOp> {
    match r {
        ProtoReq::Plain => seq![ConnOp::Statement],
        ProtoReq::Begin => seq![ConnOp::BeginStmt],
        ProtoReq::TxPlain => seq![ConnOp::Statement],
        ProtoReq::TxCommit => seq![ConnOp::CommitStmt],
        ProtoReq::TxRollback => seq![ConnOp::RollbackStmt],
        ProtoReq::TxAbandon => seq![ConnOp::RollbackStmt],
    }
}

/// The phase after a whole trace of requests.
pub open spec fn phase_after(p0: WorkerPhase, evts: Seq<(ProtoReq, bool)>) -> WorkerPhase
    decreases evts.len(),
{
    if evts.len() == 0 {
        p0
    } else {
        phase_after(step(p0, evts[0].0, evts[0].1), evts.drop_first())
    }
}

/// The worker's phase when it picks up the `i`-th request of the trace.
pub open spec fn phase_at(p0: WorkerPhase, evts: Seq<(ProtoReq, bool)>, i: int) -> WorkerPhase {
    phase_after(p0, evts.take(i))
}

/// Every request of the trace is admissible in the phase it is picked up
/// in: shared-queue requests hit idle workers, private ones open
/// transactions.
pub open spec fn all_admissible(p0: WorkerPhase, evts: Seq<(ProtoReq, bool)>) -> bool
    decreases evts.len(),
{
    evts.len() == 0 || (admissible(p0, evts[0].0) && all_admissible(
        step(p0, evts[0].0, evts[0].1),
        evts.drop_first(),
    ))
}

/// The whole trace of statements the worker's connection sees.
pub open spec fn conn_trace(p0: WorkerPhase, evts: Seq<(ProtoReq, bool)>) -> Seq<ConnOp>
    decreases evts.len(),
{
    if evts.len() == 0 {
        Seq::empty()
    } else {
        event_ops(p0, evts[0].0) + conn_trace(step(p0, evts[0].0, evts[0].1), evts.drop_first())
    }
}

/// Phases compose over trace concatenation.
pub proof fn lemma_phase_after_concat(
    p0: WorkerPhase,
    a: Seq<(ProtoReq, bool)>,
    b: Seq<(ProtoReq, bool)>,
)
    ensures
        phase_after(p0, a + b) == phase_after(phase_after(p0, a), b),
    decreases a.len(),
{
    if a.len() == 0 {
        assert(a + b =~= b);
    } else {
        assert((a + b).drop_first() =~= a.drop_first() + b);
        lemma_phase_after_concat(step(p0, a[0].0, a[0].1), a.drop_first(), b);
    }
}

/// Statements are never interleaved: the connection's statement trace of
/// two back-to-back request batches is the first batch's trace followed by
/// the second's. Each request's statements stand contiguous, in arrival
/// order.
pub proof fn lemma_serial_execution(
    p0: WorkerPhase,
    a: Seq<(ProtoReq, bool)>,
    b: Seq<(ProtoReq, bool)>,
)
    ensures
        conn_trace(p0, a + b) == conn_trace(p0, a) + conn_trace(phase_after(p0, a), b),
    decreases a.len(),
{
    if a.len() == 0 {
        assert(a + b =~= b);
        assert(conn_trace(p0, a + b) =~= conn_trace(p0, a) + conn_trace(phase_after(p0, a), b));
    } else {
        assert((a + b).drop_first() =~= a.drop_first() + b);
        lemma_serial_execution(step(p0, a[0].0, a[0].1), a.drop_first(), b);
        assert(conn_trace(p0, a + b) =~= conn_trace(p0, a) + conn_trace(phase_after(p0, a), b));
    }
}

/// While a transaction is open the worker reads only its private queue,
/// so along an admissible trace no shared-queue request (plain command or
/// transaction start) is ever picked up by a worker whose transaction is
/// open.
pub proof fn lemma_tx_isolation(p0: WorkerPhase, evts: Seq<(ProtoReq, bool)>, i: int)
    requires
        all_admissible(p0, evts),
        0 <= i < evts.len(),
        phase_at(p0, evts, i) == WorkerPhase::TxOpen,
    ensures
        read_source(phase_at(p0, evts, i)) == QueueKind::Private,
        !(evts[i].0 is Plain),
        !(evts[i].0 is Begin),
    decreases i,
{
    if i == 0 {
        assert(evts.take(0) =~= Seq::empty());
        assert(phase_at(p0, evts, 0) == p0);
    } else {
        assert(evts.take(i).drop_first() =~= evts.drop_first().take(i - 1));
        assert(evts.drop_first()[i - 1] == evts[i]);
        lemma_tx_isolation(step(p0, evts[0].0, evts[0].1), evts.drop_first(), i - 1);
    }
}

/// A failing statement inside an open transaction leaves the transaction
/// open: the worker replies with the error and waits for an explicit
/// commit or rollback.
pub proof fn lemma_error_keeps_tx_open(ok: bool)
    ensures
        step(WorkerPhase::TxOpen, ProtoReq::TxPlain, ok) == WorkerPhase::TxOpen,
{
}

/// How many workers healing spawns when `live` are alive and the pool is
/// configured for `target`.
pub open spec fn spec_deficit(live: nat, target: nat) -> nat {
    if live >= target {
        0
    } else {
        (target - live) as nat
    }
}

/// Healing restores the pool exactly to its configured size when it is
/// below it, and never spawns past the target: afterwards the live count
/// is the larger of what was there and the target.
pub proof fn lemma_heal_exact(live: nat, target: nat)
    ensures
        live + spec_deficit(live, target) == if live >= target {
            live
        } else {
            target
        },
{
}

/// Healing is idempotent: right after one heal, a second heal spawns
/// nothing.
pub proof fn lemma_heal_idempotent(live: nat, target: nat)
    ensures
        spec_deficit(live + spec_deficit(live, target), target) == 0,
{
}

/// The number of replacement workers to spawn.
pub fn worker_deficit(live: usize, target: usize) -> (n: usize)
    ensures
        n == spec_deficit(live as nat, target as nat),
{
    if live >= target {
        0
    } else {
        target - live
    }
}

} // verus!
