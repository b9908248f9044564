//! The command vocabulary exchanged between callers and workers: plain
//! commands, their results, the two request surfaces (connection-scoped
//! and transaction-scoped), the reply envelope, and the row shape.

use vstd::prelude::*;

verus! {

use crate::error::ActorSqlError;

/// One ordered parameter list, already in driver form.
pub type SqlValueVec = Vec<rusqlite::types::Value>;

/// What a non-blocking queue read found.
pub enum TryRecvOutcome<T> {
    Got(T),
    Empty,
    Closed,
}

/// One scalar a query returns, as a closed tagged variant: null, integer,
/// floating point (as its IEEE 754 bit pattern), text, or blob.
#[derive(Debug, Clone, PartialEq)]
pub enum RowValue {
    Null,
    Integer(i64),
    FloatBits(u64),
    Text(String),
    Blob(Vec<u8>),
}

/// One query result row: an ordered mapping from column name to value.
#[derive(Debug)]
pub struct ActorSqliteRow {
    pub cols: Vec<(String, RowValue)>,
}

impl ActorSqliteRow {
    /// The column names, in order.
    pub open spec fn spec_names(self) -> Seq<Seq<char>> {
        self.cols@.map_values(|c: (String, RowValue)| c.0@)
    }

    /// How many columns the row has.
    pub fn len(&self) -> (n: usize)
        ensures
            n == self.cols@.len(),
    {
        self.cols.len()
    }

    /// The value of the first column with this name, if any.
    pub fn get(&self, name: &String) -> (r: Option<&RowValue>)
        ensures
            r matches Some(v) ==> exists|i: int|
                0 <= i < self.cols@.len() && self.cols@[i].0@ == name@ && *v == self.cols@[i].1,
            r is None ==> forall|i: int| 0 <= i < self.cols@.len() ==> self.cols@[i].0@ != name@,
    {
        let mut i: usize = 0;
        while i < self.cols.len()
            invariant
                i <= self.cols@.len(),
                forall|j: int| 0 <= j < i ==> self.cols@[j].0@ != name@,
            decreases self.cols@.len() - i,
        {
            if self.cols[i].0 == *name {
                return Some(&self.cols[i].1);
            }
            i = i + 1;
        }
        None
    }

    /// Pairs every collected value with its column name: row `i`'s `k`-th
    /// column is named `names[k]` and holds `raw[i][k]`. This is the whole
    /// assembly of a query's result rows from what the driver handed back.
    pub fn from_columns(names: &Vec<String>, raw: Vec<Vec<RowValue>>) -> (rows: Vec<
        ActorSqliteRow,
    >)
        requires
            forall|i: int| 0 <= i < raw@.len() ==> raw@[i]@.len() == names@.len(),
        ensures
            rows@.len() == raw@.len(),
            forall|i: int| 0 <= i < rows@.len() ==> rows@[i].cols@.len() == names@.len(),
            forall|i: int, k: int|
                0 <= i < rows@.len() && 0 <= k < names@.len() ==> (#[trigger] rows@[i].cols@[k]).0@
                    == names@[k]@ && rows@[i].cols@[k].1 == raw@[i]@[k],
    {
        let total = raw.len();
        let ghost raw0 = raw@;
        assert(raw0.len() == total);
        let mut raw = raw;
        let mut rows: Vec<ActorSqliteRow> = Vec::new();
        let mut done: usize = 0;
        while raw.len() > 0
            invariant
                done + raw@.len() == raw0.len(),
                raw0.len() <= usize::MAX,
                rows@.len() == done,
                raw@ == raw0.subrange(done as int, raw0.len() as int),
                forall|i: int| 0 <= i < raw0.len() ==> raw0[i]@.len() == names@.len(),
                forall|i: int| 0 <= i < done ==> rows@[i].cols@.len() == names@.len(),
                forall|i: int, k: int|
                    0 <= i < done && 0 <= k < names@.len() ==> (#[trigger] rows@[i].cols@[k]).0@
                        == names@[k]@ && rows@[i].cols@[k].1 == raw0[i]@[k],
            decreases raw@.len(),
        {
            let ghost raw_pre = raw@;
            let vals = raw.remove(0);
            proof {
                assert(vals == raw_pre[0]);
                assert(raw_pre[0] == raw0[done as int]);
                assert(raw@ =~= raw0.subrange(done as int + 1, raw0.len() as int));
            }
            let ghost vals0 = vals@;
            let mut vals = vals;
            let mut cols: Vec<(String, RowValue)> = Vec::new();
            let mut k: usize = 0;
            assert(vals@ =~= vals0.subrange(0, vals0.len() as int));
            while k < names.len()
                invariant
                    k <= names@.len(),
                    vals0 == raw0[done as int]@,
                    0 <= done < raw0.len(),
                    forall|i: int| 0 <= i < raw0.len() ==> raw0[i]@.len() == names@.len(),
                    vals0.len() == names@.len(),
                    vals@ == vals0.subrange(k as int, vals0.len() as int),
                    cols@.len() == k,
                    forall|j: int| 0 <= j < k ==> (#[trigger] cols@[j]).0 == names@[j]
                        && cols@[j].1 == vals0[j],
                decreases names@.len() - k,
            {
                let ghost vals_pre = vals@;
                let v = vals.remove(0);
                proof {
                    assert(v == vals_pre[0]);
                    assert(vals_pre[0] == vals0[k as int]);
                    assert(vals@ =~= vals0.subrange(k as int + 1, vals0.len() as int));
                }
                let name_k = names[k].clone();
                proof {
                    assert(name_k == names@[k as int]);
                }
                let ghost cols_pre = cols@;
                let ghost pushed = (name_k, v);
                cols.push((name_k, v));
                proof {
                    assert(cols@ == cols_pre.push(pushed));
                    assert forall|j: int| 0 <= j < k + 1 implies (#[trigger] cols@[j]).0
                        == names@[j] && cols@[j].1 == vals0[j] by {
                        if j < k {
                            assert(cols@[j] == cols_pre[j]);
                        } else {
                            assert(cols@[j] == pushed);
                        }
                    }
                }
                k = k + 1;
            }
            let ghost cols_g = cols@;
            let ghost rows_pre = rows@;
            rows.push(ActorSqliteRow { cols });
            proof {
                assert(rows@[done as int].cols@ == cols_g);
                assert(cols_g.len() == names@.len());
                assert forall|i: int, k2: int|
                    0 <= i < done + 1 && 0 <= k2 < names@.len() implies (#[trigger] rows@[i].cols@[k2]).0@
                    == names@[k2]@ && rows@[i].cols@[k2].1 == raw0[i]@[k2] by {
                    if i < done {
                        assert(rows@[i] == rows_pre[i]);
                        assert((rows_pre[i].cols@[k2]).0@ == names@[k2]@ && rows_pre[i].cols@[k2].1
                            == raw0[i]@[k2]);
                    } else {
                        assert(rows@[i].cols@ == cols_g);
                        assert(cols_g[k2].0 == names@[k2]);
                        assert(cols_g[k2].1 == vals0[k2]);
                        assert(vals0 == raw0[done as int]@);
                    }
                }
            }
            done = done + 1;
        }
        rows
    }
}

/// A plain command: a mutating statement, or a read.
#[derive(Debug)]
pub enum CmdReq {
    Exec { sql: String, params: SqlValueVec },
    QueryMap { sql: String, params: SqlValueVec },
}

/// The result a plain command produces: the affected-row count of a
/// mutating statement, or the rows of a read.
#[derive(Debug)]
pub enum CmdResult {
    Exec(usize),
    QueryMap(Vec<ActorSqliteRow>),
}

/// A request on the shared, connection-scoped surface.
#[derive(Debug)]
pub enum ConnCmdReq {
    Command(CmdReq),
    Transaction,
}

/// A reply on the connection-scoped surface: a command result, or the
/// send end of a fresh private transaction queue.
pub enum ConnCmdRsp {
    Cmd(CmdResult),
    Tx(flume::Sender<RspWrapper<TxCmdReq, TxCmdRsp>>),
}

/// A request on a transaction's private surface.
#[derive(Debug)]
pub enum TxCmdReq {
    Command(CmdReq),
    Commit,
    Rollback,
}

/// A reply on a transaction's private surface.
#[derive(Debug)]
pub enum TxCmdRsp {
    Cmd(CmdResult),
    Committed,
    Rollbacked,
}

/// A command paired with its single-use reply channel. Every envelope is
/// answered once, or its channel is dropped and the caller sees a channel
/// error.
#[verifier::reject_recursive_types(Rsp)]
pub struct RspWrapper<Req, Rsp> {
    pub command: Req,
    pub otx: oneshot::Sender<Result<Rsp, ActorSqlError>>,
}

/// The envelope type of the shared pool queue.
pub type ConnEnvelope = RspWrapper<ConnCmdReq, ConnCmdRsp>;

/// The envelope type of a transaction's private queue.
pub type TxEnvelope = RspWrapper<TxCmdReq, TxCmdRsp>;

} // verus!
