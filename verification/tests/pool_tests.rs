use actor_sqlite::{
    ActorSqlError, CmdReq, ConnCmdReq, ConnCmdRsp, InnerActorSqlitePool, PoolConfig, RowValue,
    RsValue, RspWrapper, ServeOutcome, TxCmdReq, Worker,
};

fn config(size: u32) -> PoolConfig {
    PoolConfig {
        pool_size: Some(size),
        db_path: None,
        init_sqls: vec![
            "create table t (a integer primary key, b text);".to_string(),
        ],
    }
}

type ConnReply = Result<ConnCmdRsp, ActorSqlError>;
type TxReply = Result<actor_sqlite::TxCmdRsp, ActorSqlError>;

fn send_conn(
    pool: &InnerActorSqlitePool,
    req: ConnCmdReq,
) -> oneshot::Receiver<ConnReply> {
    let (client, extra) = pool.get().unwrap();
    assert!(extra.is_empty());
    let (otx, orx) = oneshot::channel();
    client.inner.send(RspWrapper { command: req, otx }).unwrap();
    orx
}

fn send_tx(
    tx: &flume::Sender<RspWrapper<TxCmdReq, actor_sqlite::TxCmdRsp>>,
    req: TxCmdReq,
) -> oneshot::Receiver<TxReply> {
    let (otx, orx) = oneshot::channel();
    tx.send(RspWrapper { command: req, otx }).unwrap();
    orx
}

fn exec_req(sql: &str, params: Vec<RsValue>) -> CmdReq {
    CmdReq::Exec { sql: sql.to_string(), params }
}

fn query_req(sql: &str, params: Vec<RsValue>) -> CmdReq {
    CmdReq::QueryMap { sql: sql.to_string(), params }
}

#[test]
fn roundtrip_insert_then_query_sees_the_row() {
    let (pool, mut workers) = InnerActorSqlitePool::try_new(config(1)).unwrap();
    let w = &mut workers[0];

    let orx = send_conn(
        &pool,
        ConnCmdReq::Command(exec_req(
            "insert into t values (?, ?)",
            vec![RsValue::Integer(1), RsValue::Text("x".to_string())],
        )),
    );
    assert_eq!(w.service_one(), ServeOutcome::PlainDone);
    let rsp = orx.recv().unwrap().unwrap();
    let count = actor_sqlite::client::conn_exec_count(rsp).unwrap();
    assert_eq!(count, 1);

    let orx = send_conn(
        &pool,
        ConnCmdReq::Command(query_req("select a, b from t", vec![])),
    );
    assert_eq!(w.service_one(), ServeOutcome::PlainDone);
    let rows = actor_sqlite::client::conn_query_rows(orx.recv().unwrap().unwrap()).unwrap();
    assert_eq!(rows.len(), 1);
    assert_eq!(rows[0].len(), 2);
    assert_eq!(rows[0].get(&"a".to_string()), Some(&RowValue::Integer(1)));
    assert_eq!(
        rows[0].get(&"b".to_string()),
        Some(&RowValue::Text("x".to_string()))
    );
    assert_eq!(rows[0].get(&"missing".to_string()), None);
}

#[test]
fn open_transaction_parks_the_worker_off_the_shared_queue() {
    let (pool, mut workers) = InnerActorSqlitePool::try_new(config(1)).unwrap();
    let w = &mut workers[0];

    // Open a transaction: the worker detaches to a private queue.
    let orx = send_conn(&pool, ConnCmdReq::Transaction);
    assert_eq!(w.service_one(), ServeOutcome::BeginOk);
    let tx = match orx.recv().unwrap().unwrap() {
        ConnCmdRsp::Tx(tx) => tx,
        _ => panic!("expected a transaction handle"),
    };

    // A plain request now sits on the shared queue, but the worker must
    // not touch it while its transaction is open.
    let plain_orx = send_conn(
        &pool,
        ConnCmdReq::Command(exec_req(
            "insert into t values (?, ?)",
            vec![RsValue::Integer(7), RsValue::Text("y".to_string())],
        )),
    );
    assert_eq!(w.service_one(), ServeOutcome::Empty);
    assert_eq!(w.service_one(), ServeOutcome::Empty);

    // Work inside the transaction proceeds on the private queue.
    let orx = send_tx(
        &tx,
        TxCmdReq::Command(exec_req(
            "insert into t values (?, ?)",
            vec![RsValue::Integer(1), RsValue::Text("x".to_string())],
        )),
    );
    assert_eq!(w.service_one(), ServeOutcome::TxCmdDone);
    let n = actor_sqlite::client::tx_exec_count(orx.recv().unwrap().unwrap()).unwrap();
    assert_eq!(n, 1);

    // Resolving the transaction returns the worker to the pool, and only
    // then is the parked plain request served.
    let orx = send_tx(&tx, TxCmdReq::Commit);
    assert_eq!(w.service_one(), ServeOutcome::CommitDone);
    actor_sqlite::client::tx_committed(orx.recv().unwrap().unwrap()).unwrap();
    assert_eq!(w.service_one(), ServeOutcome::PlainDone);
    let n = actor_sqlite::client::conn_exec_count(plain_orx.recv().unwrap().unwrap()).unwrap();
    assert_eq!(n, 1);
}

#[test]
fn commit_makes_writes_visible_and_rollback_hides_them() {
    let (pool, mut workers) = InnerActorSqlitePool::try_new(config(1)).unwrap();
    let w = &mut workers[0];

    // Rolled-back insert: invisible to a later plain read.
    let orx = send_conn(&pool, ConnCmdReq::Transaction);
    assert_eq!(w.service_one(), ServeOutcome::BeginOk);
    let tx = match orx.recv().unwrap().unwrap() {
        ConnCmdRsp::Tx(tx) => tx,
        _ => panic!("expected a transaction handle"),
    };
    let orx = send_tx(
        &tx,
        TxCmdReq::Command(exec_req(
            "insert into t values (?, ?)",
            vec![RsValue::Integer(1), RsValue::Text("gone".to_string())],
        )),
    );
    assert_eq!(w.service_one(), ServeOutcome::TxCmdDone);
    orx.recv().unwrap().unwrap();
    let orx = send_tx(&tx, TxCmdReq::Rollback);
    assert_eq!(w.service_one(), ServeOutcome::RollbackDone);
    actor_sqlite::client::tx_rollbacked(orx.recv().unwrap().unwrap()).unwrap();

    let orx = send_conn(&pool, ConnCmdReq::Command(query_req("select * from t", vec![])));
    assert_eq!(w.service_one(), ServeOutcome::PlainDone);
    let rows = actor_sqlite::client::conn_query_rows(orx.recv().unwrap().unwrap()).unwrap();
    assert_eq!(rows.len(), 0);

    // Committed insert: visible to a later plain read.
    let orx = send_conn(&pool, ConnCmdReq::Transaction);
    assert_eq!(w.service_one(), ServeOutcome::BeginOk);
    let tx = match orx.recv().unwrap().unwrap() {
        ConnCmdRsp::Tx(tx) => tx,
        _ => panic!("expected a transaction handle"),
    };
    let orx = send_tx(
        &tx,
        TxCmdReq::Command(exec_req(
            "insert into t values (?, ?)",
            vec![RsValue::Integer(2), RsValue::Text("kept".to_string())],
        )),
    );
    assert_eq!(w.service_one(), ServeOutcome::TxCmdDone);
    orx.recv().unwrap().unwrap();
    let orx = send_tx(&tx, TxCmdReq::Commit);
    assert_eq!(w.service_one(), ServeOutcome::CommitDone);
    actor_sqlite::client::tx_committed(orx.recv().unwrap().unwrap()).unwrap();

    let orx = send_conn(&pool, ConnCmdReq::Command(query_req("select * from t", vec![])));
    assert_eq!(w.service_one(), ServeOutcome::PlainDone);
    let rows = actor_sqlite::client::conn_query_rows(orx.recv().unwrap().unwrap()).unwrap();
    assert_eq!(rows.len(), 1);
    assert_eq!(rows[0].get(&"b".to_string()), Some(&RowValue::Text("kept".to_string())));
}

#[test]
fn failing_statement_leaves_the_transaction_open() {
    let (pool, mut workers) = InnerActorSqlitePool::try_new(config(1)).unwrap();
    let w = &mut workers[0];

    let orx = send_conn(&pool, ConnCmdReq::Transaction);
    assert_eq!(w.service_one(), ServeOutcome::BeginOk);
    let tx = match orx.recv().unwrap().unwrap() {
        ConnCmdRsp::Tx(tx) => tx,
        _ => panic!("expected a transaction handle"),
    };

    let orx = send_tx(
        &tx,
        TxCmdReq::Command(exec_req(
            "insert into t values (?, ?)",
            vec![RsValue::Integer(1), RsValue::Text("x".to_string())],
        )),
    );
    assert_eq!(w.service_one(), ServeOutcome::TxCmdDone);
    orx.recv().unwrap().unwrap();

    // A duplicate key violates the primary key: the reply carries the
    // database error, and the transaction stays open.
    let orx = send_tx(
        &tx,
        TxCmdReq::Command(exec_req(
            "insert into t values (?, ?)",
            vec![RsValue::Integer(1), RsValue::Text("dup".to_string())],
        )),
    );
    assert_eq!(w.service_one(), ServeOutcome::TxCmdDone);
    let reply = orx.recv().unwrap();
    assert!(matches!(reply, Err(ActorSqlError::CustomRusqliteError(_))));

    // Still parked: shared requests wait.
    let parked = send_conn(&pool, ConnCmdReq::Command(query_req("select * from t", vec![])));
    assert_eq!(w.service_one(), ServeOutcome::Empty);

    // The caller decides: an explicit commit still works.
    let orx = send_tx(&tx, TxCmdReq::Commit);
    assert_eq!(w.service_one(), ServeOutcome::CommitDone);
    actor_sqlite::client::tx_committed(orx.recv().unwrap().unwrap()).unwrap();

    assert_eq!(w.service_one(), ServeOutcome::PlainDone);
    let rows = actor_sqlite::client::conn_query_rows(parked.recv().unwrap().unwrap()).unwrap();
    assert_eq!(rows.len(), 1);
}

#[test]
fn abandoned_transaction_rolls_back_and_frees_the_worker() {
    let (pool, mut workers) = InnerActorSqlitePool::try_new(config(1)).unwrap();
    let w = &mut workers[0];

    let orx = send_conn(&pool, ConnCmdReq::Transaction);
    assert_eq!(w.service_one(), ServeOutcome::BeginOk);
    let tx = match orx.recv().unwrap().unwrap() {
        ConnCmdRsp::Tx(tx) => tx,
        _ => panic!("expected a transaction handle"),
    };
    let orx = send_tx(
        &tx,
        TxCmdReq::Command(exec_req(
            "insert into t values (?, ?)",
            vec![RsValue::Integer(1), RsValue::Text("lost".to_string())],
        )),
    );
    assert_eq!(w.service_one(), ServeOutcome::TxCmdDone);
    orx.recv().unwrap().unwrap();

    // Dropping the handle without commit or rollback closes the private
    // queue; the worker rolls back and returns to the pool.
    drop(tx);
    assert_eq!(w.service_one(), ServeOutcome::Abandoned);

    let orx = send_conn(&pool, ConnCmdReq::Command(query_req("select * from t", vec![])));
    assert_eq!(w.service_one(), ServeOutcome::PlainDone);
    let rows = actor_sqlite::client::conn_query_rows(orx.recv().unwrap().unwrap()).unwrap();
    assert_eq!(rows.len(), 0);
}

#[test]
fn healing_restores_capacity_once_per_loss() {
    let (pool, mut workers) = InnerActorSqlitePool::try_new(config(2)).unwrap();
    assert_eq!(workers.len(), 2);

    // Full pool: get() spawns nothing.
    let (_client, extra) = pool.get().unwrap();
    assert_eq!(extra.len(), 0);

    // One worker dies: the next get() builds exactly one replacement, and
    // a second get() right after builds none.
    drop(workers.pop());
    let (_client, extra) = pool.get().unwrap();
    assert_eq!(extra.len(), 1);
    workers.extend(extra);
    let (_client, extra) = pool.get().unwrap();
    assert_eq!(extra.len(), 0);
}

#[test]
fn requests_on_one_queue_are_served_in_arrival_order() {
    let (pool, mut workers) = InnerActorSqlitePool::try_new(config(1)).unwrap();
    let w = &mut workers[0];

    let first = send_conn(&pool, ConnCmdReq::Command(query_req("select * from t", vec![])));
    let second = send_conn(
        &pool,
        ConnCmdReq::Command(exec_req(
            "insert into t values (?, ?)",
            vec![RsValue::Integer(1), RsValue::Text("x".to_string())],
        )),
    );

    // The empty-table read arrived first and is answered first: it sees
    // nothing of the insert queued behind it.
    assert_eq!(w.service_one(), ServeOutcome::PlainDone);
    let rows = actor_sqlite::client::conn_query_rows(first.recv().unwrap().unwrap()).unwrap();
    assert_eq!(rows.len(), 0);
    assert_eq!(w.service_one(), ServeOutcome::PlainDone);
    let n = actor_sqlite::client::conn_exec_count(second.recv().unwrap().unwrap()).unwrap();
    assert_eq!(n, 1);
}

#[test]
fn reply_shapes_are_checked_exactly() {
    let bad = actor_sqlite::client::conn_exec_count(ConnCmdRsp::Cmd(
        actor_sqlite::CmdResult::QueryMap(vec![]),
    ));
    assert!(matches!(bad, Err(ActorSqlError::RusqliteBuildError(_))));
    let bad = actor_sqlite::client::tx_committed(actor_sqlite::TxCmdRsp::Rollbacked);
    assert!(matches!(bad, Err(ActorSqlError::LiteralError(_))));
    let bad = actor_sqlite::client::tx_query_rows(actor_sqlite::TxCmdRsp::Committed);
    assert!(matches!(bad, Err(ActorSqlError::LiteralError(_))));
}

#[test]
fn sending_into_a_dead_pool_is_a_channel_error() {
    let (pool, workers) = InnerActorSqlitePool::try_new(config(1)).unwrap();
    let (client, _extra) = pool.get().unwrap();
    drop(workers);
    drop(pool);
    // An infrastructure failure carries the channel-error variant and its
    // description, never the database-error variant.
    let r = client.execute("select 1".to_string(), vec![]);
    match r {
        Err(ActorSqlError::ActorErrorWithDesc(_, desc)) => {
            assert_eq!(desc, "flume send error");
        },
        other => panic!("expected a channel error, got {other:?}"),
    }
}


#[test]
fn row_assembly_pairs_names_with_values_in_order() {
    let names = vec!["a".to_string(), "b".to_string()];
    let raw = vec![
        vec![RowValue::Integer(1), RowValue::Text("x".to_string())],
        vec![RowValue::Null, RowValue::FloatBits(2.5f64.to_bits())],
    ];
    let rows = actor_sqlite::ActorSqliteRow::from_columns(&names, raw);
    assert_eq!(rows.len(), 2);
    assert_eq!(rows[0].len(), 2);
    assert_eq!(rows[0].cols[0], ("a".to_string(), RowValue::Integer(1)));
    assert_eq!(rows[0].cols[1], ("b".to_string(), RowValue::Text("x".to_string())));
    assert_eq!(rows[1].cols[0], ("a".to_string(), RowValue::Null));
    assert_eq!(
        rows[1].cols[1],
        ("b".to_string(), RowValue::FloatBits(2.5f64.to_bits()))
    );
}

#[test]
fn queried_floats_travel_as_their_bit_patterns() {
    let cfg = PoolConfig { pool_size: Some(1), db_path: None, init_sqls: vec![] };
    let (pool, mut workers) = InnerActorSqlitePool::try_new(cfg).unwrap();
    let w = &mut workers[0];
    let orx = send_conn(
        &pool,
        ConnCmdReq::Command(query_req("select 1.5 as x", vec![])),
    );
    assert_eq!(w.service_one(), ServeOutcome::PlainDone);
    let rows = actor_sqlite::client::conn_query_rows(orx.recv().unwrap().unwrap()).unwrap();
    assert_eq!(rows[0].get(&"x".to_string()), Some(&RowValue::FloatBits(1.5f64.to_bits())));
}

#[test]
fn construction_fails_fast_on_a_bad_init_statement() {
    let bad = PoolConfig {
        pool_size: Some(1),
        db_path: None,
        init_sqls: vec!["this is not sql".to_string()],
    };
    let r = InnerActorSqlitePool::try_new(bad);
    assert!(matches!(r, Err(ActorSqlError::CustomRusqliteError(_))));
}

#[test]
fn default_pool_size_is_one() {
    let cfg = PoolConfig { pool_size: None, db_path: None, init_sqls: vec![] };
    assert_eq!(cfg.target_size(), 1);
    let (_pool, workers) = InnerActorSqlitePool::try_new(cfg).unwrap();
    assert_eq!(workers.len(), 1);
}

#[test]
fn worker_reports_a_closed_pool() {
    let cfg = PoolConfig { pool_size: Some(1), db_path: None, init_sqls: vec![] };
    let (pool, mut workers) = InnerActorSqlitePool::try_new(cfg).unwrap();
    drop(pool);
    let w: &mut Worker = &mut workers[0];
    assert_eq!(w.service_one(), ServeOutcome::Closed);
}

#[test]
fn request_builders_build_exactly_the_given_command() {
    match actor_sqlite::client::exec_request("ins".to_string(), vec![RsValue::Integer(4)]) {
        ConnCmdReq::Command(CmdReq::Exec { sql, params }) => {
            assert_eq!(sql, "ins");
            assert_eq!(params, vec![RsValue::Integer(4)]);
        },
        other => panic!("wrong command: {other:?}"),
    }
    match actor_sqlite::client::query_request("sel".to_string(), vec![]) {
        ConnCmdReq::Command(CmdReq::QueryMap { sql, params }) => {
            assert_eq!(sql, "sel");
            assert!(params.is_empty());
        },
        other => panic!("wrong command: {other:?}"),
    }
    assert!(matches!(
        actor_sqlite::client::transaction_request(),
        ConnCmdReq::Transaction
    ));
    match actor_sqlite::client::tx_exec_request("ins".to_string(), vec![]) {
        TxCmdReq::Command(CmdReq::Exec { sql, .. }) => assert_eq!(sql, "ins"),
        other => panic!("wrong command: {other:?}"),
    }
    match actor_sqlite::client::tx_query_request("sel".to_string(), vec![]) {
        TxCmdReq::Command(CmdReq::QueryMap { sql, .. }) => assert_eq!(sql, "sel"),
        other => panic!("wrong command: {other:?}"),
    }
    assert!(matches!(actor_sqlite::client::commit_request(), TxCmdReq::Commit));
    assert!(matches!(actor_sqlite::client::rollback_request(), TxCmdReq::Rollback));
}

#[test]
fn shape_errors_carry_their_fixed_messages() {
    match actor_sqlite::client::conn_exec_count(ConnCmdRsp::Cmd(
        actor_sqlite::CmdResult::QueryMap(vec![]),
    )) {
        Err(ActorSqlError::RusqliteBuildError(m)) => assert_eq!(m, "affected size"),
        other => panic!("expected the shape error, got {other:?}"),
    }
    match actor_sqlite::client::conn_tx_handle(ConnCmdRsp::Cmd(
        actor_sqlite::CmdResult::Exec(0),
    )) {
        Err(ActorSqlError::RusqliteBuildError(m)) => assert_eq!(m, "unable to create tx client"),
        _ => panic!("expected the shape error"),
    }
    match actor_sqlite::client::tx_committed(actor_sqlite::TxCmdRsp::Rollbacked) {
        Err(ActorSqlError::LiteralError(m)) => assert_eq!(m, "fail to commit"),
        other => panic!("expected the shape error, got {other:?}"),
    }
    match actor_sqlite::client::tx_rollbacked(actor_sqlite::TxCmdRsp::Committed) {
        Err(ActorSqlError::LiteralError(m)) => assert_eq!(m, "fail to rollback"),
        other => panic!("expected the shape error, got {other:?}"),
    }
}
