//! Pooled, transaction-capable access to an embedded SQL database, together
//! with the statement-building layer that produces the SQL text and parameter
//! lists the pool executes.
//!
//! The pool pairs each database connection with one worker that owns it
//! exclusively; callers talk to workers over request/reply channels, and a
//! transaction parks its worker on a private queue until it resolves.

pub mod text;
pub mod place_holder;
pub mod sql_value;
pub mod seg;
pub mod wheres;
pub mod sql_builder;
pub mod str_type;
pub mod tablefield;
pub mod sql_inserter;
pub mod sql_updater;
pub mod sql_reader;
pub mod error;
pub mod model;
mod external;
pub mod protocol;
pub mod worker;
pub mod pool;
pub mod client;

pub use place_holder::DbType;
pub use place_holder::PlaceHolderType;
pub use sql_value::{LogicFieldType, SegOrVal, SqlValue, TimestampTz};
pub use seg::{ChinSqlError, IntoSqlSeg, SqlSeg};
pub use wheres::{FilterCount, ILikeType, WhereConjOp, Wheres};
pub use sql_builder::{CustomSqlSeg, LimitOffset, OrderBy, SqlBuilder, SqlBuilderSeg};
pub use str_type::{SharedStr, Text, Varchar};
pub use tablefield::{SqlField, SqlTable, SqlTypedField};
pub use sql_inserter::{OnConflict, SqlInserter};
pub use sql_updater::SqlUpdater;
pub use sql_reader::{Fields, Froms, GroupBy, Having, JoinCond, JoinTable, JoinType, Joins, SqlReader, SqlReaderBuilder, SubQueryTable};
pub use error::ActorSqlError;
pub use model::{ActorSqliteRow, CmdReq, CmdResult, ConnCmdReq, ConnCmdRsp, RowValue, RspWrapper, SqlValueVec, TxCmdReq, TxCmdRsp};
pub use rusqlite::types::Value as RsValue;
pub use protocol::{ConnOp, ProtoReq, QueueKind, WorkerPhase};
pub use worker::{ServeOutcome, Worker};
pub use pool::{ActorSqlitePool, InnerActorSqlitePool, PoolConfig};
pub use client::{ActorSqliteConnClient, ActorSqliteTxClient};
