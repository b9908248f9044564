use actor_sqlite::{
    ChinSqlError, DbType, ILikeType, IntoSqlSeg, LimitOffset, LogicFieldType, OnConflict,
    OrderBy, PlaceHolderType, SegOrVal, SqlBuilder, SqlInserter, SqlSeg, SqlUpdater, SqlValue,
    TimestampTz, Wheres,
};

fn qm() -> PlaceHolderType {
    PlaceHolderType::QuestionMark
}

fn dollars() -> PlaceHolderType {
    PlaceHolderType::DollarNumber(0)
}

#[test]
fn wheres_and_renders_with_question_marks() {
    let w = Wheres::and(vec![
        Wheres::equal("a".to_string(), SqlValue::I64(1)),
        Wheres::ilike("b".to_string(), "x", ILikeType::Fuzzy),
    ]);
    let mut pht = qm();
    let seg = w.build(DbType::Sqlite, &mut pht).unwrap();
    assert_eq!(seg.seg, "a = ? and b like ?");
    assert_eq!(
        seg.values,
        vec![SqlValue::I64(1), SqlValue::Str("%x%".to_string())]
    );
}

#[test]
fn wheres_numbers_postgres_placeholders() {
    let w = Wheres::or(vec![
        Wheres::equal("a".to_string(), SqlValue::I64(1)),
        Wheres::equal("b".to_string(), SqlValue::I64(2)),
    ]);
    let mut pht = dollars();
    let seg = w.build(DbType::Postgres, &mut pht).unwrap();
    assert_eq!(seg.seg, "a = $1 or b = $2");
    assert_eq!(pht, PlaceHolderType::DollarNumber(2));
}

#[test]
fn wheres_ilike_uses_ilike_on_postgres() {
    let w = Wheres::ilike("b".to_string(), "x", ILikeType::LeftFuzzy);
    let mut pht = dollars();
    let seg = w.build(DbType::Postgres, &mut pht).unwrap();
    assert_eq!(seg.seg, "b ilike $1");
    assert_eq!(seg.values, vec![SqlValue::Str("%x".to_string())]);
}

#[test]
fn wheres_ilike_on_empty_needle_filters_nothing() {
    let w = Wheres::ilike("b".to_string(), "", ILikeType::Fuzzy);
    assert!(w.empty());
    let mut pht = qm();
    assert!(w.build(DbType::Sqlite, &mut pht).is_none());
}

#[test]
fn wheres_in_list_renders_one_marker_per_value() {
    let w = Wheres::in_list(
        "k".to_string(),
        vec![SqlValue::I64(1), SqlValue::I64(2)],
    );
    let mut pht = qm();
    let seg = w.build(DbType::Sqlite, &mut pht).unwrap();
    assert_eq!(seg.seg, "k in (?,?)");
    assert_eq!(seg.values, vec![SqlValue::I64(1), SqlValue::I64(2)]);

    let w = Wheres::in_list(
        "k".to_string(),
        vec![SqlValue::I64(1), SqlValue::I64(2)],
    );
    let mut pht = dollars();
    let seg = w.build(DbType::Postgres, &mut pht).unwrap();
    assert_eq!(seg.seg, "k in ($1,$2)");
}

#[test]
fn wheres_not_wraps_the_inner_filter() {
    let w = Wheres::not(Wheres::equal("a".to_string(), SqlValue::I64(1)));
    let mut pht = qm();
    let seg = w.build(DbType::Sqlite, &mut pht).unwrap();
    assert_eq!(seg.seg, " not ( a = ?)");
}

#[test]
fn wheres_is_null_renders_as_raw_text() {
    let w = Wheres::is_null("a".to_string());
    let mut pht = qm();
    let seg = w.build(DbType::Sqlite, &mut pht).unwrap();
    assert_eq!(seg.seg, " a is null ");
    assert!(seg.values.is_empty());

    let w = Wheres::is_not_null("a".to_string());
    let mut pht = qm();
    let seg = w.build(DbType::Sqlite, &mut pht).unwrap();
    assert_eq!(seg.seg, " a is not null ");
}

#[test]
fn wheres_segment_list_renders_in_order() {
    let w = Wheres::SOV(vec![
        SegOrVal::Str("x >".to_string()),
        SegOrVal::Val(SqlValue::I64(5)),
    ]);
    let mut pht = qm();
    let seg = w.build(DbType::Sqlite, &mut pht).unwrap();
    assert_eq!(seg.seg, "x >?");
    assert_eq!(seg.values, vec![SqlValue::I64(5)]);
}

#[test]
fn wheres_nothing_and_empty_conj_render_to_nothing() {
    let mut pht = qm();
    assert!(Wheres::none().build(DbType::Sqlite, &mut pht).is_none());
    let w = Wheres::and(vec![]);
    assert!(w.empty());
    assert!(w.build(DbType::Sqlite, &mut pht).is_none());
}

#[test]
fn wheres_if_some_maps_or_filters_nothing() {
    let w = Wheres::if_some(Some(7i64), |v| Wheres::equal("a".to_string(), SqlValue::I64(v)));
    let mut pht = qm();
    assert_eq!(w.build(DbType::Sqlite, &mut pht).unwrap().seg, "a = ?");
    let w = Wheres::if_some(None::<i64>, |v| {
        Wheres::equal("a".to_string(), SqlValue::I64(v))
    });
    assert!(w.empty());
}

#[test]
fn builder_read_all_where_limit() {
    let sql = SqlBuilder::read_all("t")
        .where_clause(Wheres::equal("a".to_string(), SqlValue::I64(1)))
        .limit(5)
        .into_sql_seg(DbType::Sqlite)
        .unwrap();
    assert_eq!(sql.seg, "select * from t  where a = ? limit 5 ");
    assert_eq!(sql.values, vec![SqlValue::I64(1)]);
}

#[test]
fn builder_read_joins_fields() {
    let fields = vec!["a".to_string(), "b".to_string()];
    let sql = SqlBuilder::read("t", &fields).into_sql_seg(DbType::Sqlite).unwrap();
    assert_eq!(sql.seg, "select a, b from t ");
}

#[test]
fn builder_seg_and_val_alternate() {
    let sql = SqlBuilder::new()
        .seg("x =".to_string())
        .val(SqlValue::I64(7))
        .into_sql_seg(DbType::Sqlite)
        .unwrap();
    assert_eq!(sql.seg, "x = ? ");
    assert_eq!(sql.values, vec![SqlValue::I64(7)]);
}

#[test]
fn builder_empty_is_refused() {
    let r = SqlBuilder::new().into_sql_seg(DbType::Sqlite);
    assert!(matches!(r, Err(ChinSqlError::BuilderSqlError(_))));
}

#[test]
fn builder_comma_joins_names() {
    let sql = SqlBuilder::new()
        .comma(vec!["a".to_string(), "b".to_string()])
        .into_sql_seg(DbType::Sqlite)
        .unwrap();
    assert_eq!(sql.seg, "a, b ");
}

#[test]
fn builder_order_by_drops_unordered_keys() {
    let sql = SqlBuilder::new()
        .order_by(vec![
            OrderBy::Asc("a".to_string()),
            OrderBy::Unordered,
            OrderBy::Desc("b".to_string()),
        ])
        .into_sql_seg(DbType::Sqlite)
        .unwrap();
    assert_eq!(sql.seg, " order by  a asc, b desc ");
}

#[test]
fn builder_sub_query_renders_in_parentheses() {
    let sql = SqlBuilder::new()
        .sub("q".to_string(), SqlBuilder::read_all("t"))
        .into_sql_seg(DbType::Sqlite)
        .unwrap();
    assert_eq!(sql.seg, " (select * from t ) q ");
}

#[test]
fn builder_custom_piece_renders_limit_text() {
    let sql = SqlBuilder::new()
        .custom(LimitOffset::new(3).offset(6))
        .into_sql_seg(DbType::Sqlite)
        .unwrap();
    assert_eq!(sql.seg, "limit 3 offset 6 ");
}

#[test]
fn builder_merge_keeps_order() {
    let a = SqlBuilder::new().seg("a".to_string());
    let b = SqlBuilder::new().seg("b".to_string());
    let sql = a.merge(b).into_sql_seg(DbType::Sqlite).unwrap();
    assert_eq!(sql.seg, "a b ");
}

#[test]
fn builder_transform_and_some_then_apply_their_maps() {
    let sql = SqlBuilder::new()
        .seg("a".to_string())
        .transform(|b| b.seg("t".to_string()))
        .some_then(Some(5usize), |n, b| b.limit(n))
        .some_then(None::<usize>, |n, b| b.limit(n))
        .into_sql_seg(DbType::Sqlite)
        .unwrap();
    assert_eq!(sql.seg, "a t limit 5 ");
}

#[test]
fn limit_offset_renders_large_numbers_in_decimal() {
    let sql = SqlBuilder::new()
        .limit_offset(LimitOffset::new(1234567890).offset_if_some(Some(0)))
        .into_sql_seg(DbType::Sqlite)
        .unwrap();
    assert_eq!(sql.seg, "limit 1234567890 offset 0 ");
    let sql = SqlBuilder::new().limit(0).into_sql_seg(DbType::Sqlite).unwrap();
    assert_eq!(sql.seg, "limit 0 ");
}

#[test]
fn placeholders_thread_through_a_whole_statement() {
    let sql = SqlBuilder::read_all("t")
        .val(SqlValue::I64(1))
        .where_clause(Wheres::in_list(
            "k".to_string(),
            vec![SqlValue::I64(2), SqlValue::I64(3)],
        ))
        .into_sql_seg(DbType::Postgres)
        .unwrap();
    assert_eq!(sql.seg, "select * from t $1  where k in ($2,$3) ");
    assert_eq!(
        sql.values,
        vec![SqlValue::I64(1), SqlValue::I64(2), SqlValue::I64(3)]
    );
}

#[test]
fn inserter_renders_sqlite_form() {
    let sql = SqlInserter::new("t".to_string())
        .field("a".to_string(), SqlValue::I64(1))
        .field("b".to_string(), SqlValue::Str("x".to_string()))
        .into_sql_seg(DbType::Sqlite)
        .unwrap();
    assert_eq!(sql.seg, "insert  into t(a,b) values (?, ?)");
    assert_eq!(
        sql.values,
        vec![SqlValue::I64(1), SqlValue::Str("x".to_string())]
    );
}

#[test]
fn inserter_or_ignore_on_sqlite() {
    let sql = SqlInserter::new("t".to_string())
        .field("a".to_string(), SqlValue::I64(1))
        .on_conflict(OnConflict::Ignore)
        .into_sql_seg(DbType::Sqlite)
        .unwrap();
    assert_eq!(sql.seg, "insert  or ignore  into t(a) values (?)");
}

#[test]
fn inserter_upsert_on_postgres() {
    let sql = SqlInserter::new("t".to_string())
        .field("a".to_string(), SqlValue::I64(1))
        .field("b".to_string(), SqlValue::I64(2))
        .on_conflict(OnConflict::Replace("a".to_string()))
        .into_sql_seg(DbType::Postgres)
        .unwrap();
    assert_eq!(
        sql.seg,
        "insert  into t(a,b) values ($1, $2) ON CONFLICT (a) DO UPDATE SET a = $1, b=$2"
    );
}

#[test]
fn inserter_without_fields_is_refused() {
    let r = SqlInserter::new("t".to_string()).into_sql_seg(DbType::Sqlite);
    assert!(matches!(r, Err(ChinSqlError::BuilderSqlError(_))));
}

#[test]
fn inserter_raw_extras_take_no_part_in_rendering() {
    let sql = SqlInserter::new("t".to_string())
        .field("a".to_string(), SqlValue::I64(1))
        .raw("x".to_string(), Some(SqlValue::I64(9)))
        .raw("y".to_string(), None)
        .into_sql_seg(DbType::Sqlite)
        .unwrap();
    assert_eq!(sql.seg, "insert  into t(a) values (?)");
    assert_eq!(sql.values, vec![SqlValue::I64(1)]);
}

#[test]
fn updater_renders_setters_and_filter() {
    let sql = SqlUpdater::new("t".to_string())
        .set("a".to_string(), SqlValue::I64(1))
        .set_if_some("b".to_string(), Some(SqlValue::I64(2)))
        .set_if_some("c".to_string(), None)
        .trans_if_some("d".to_string(), Some(3i64), SqlValue::I64)
        .where_clause(Wheres::equal("id".to_string(), SqlValue::I64(9)))
        .into_sql_seg(DbType::Sqlite)
        .unwrap();
    assert_eq!(sql.seg, " update t set  a = ? ,  b = ? ,  d = ?  where id = ?");
    assert_eq!(
        sql.values,
        vec![
            SqlValue::I64(1),
            SqlValue::I64(2),
            SqlValue::I64(3),
            SqlValue::I64(9)
        ]
    );
}

#[test]
fn updater_without_setters_is_refused() {
    let r = SqlUpdater::new("t".to_string())
        .where_clause(Wheres::equal("id".to_string(), SqlValue::I64(1)))
        .into_sql_seg(DbType::Sqlite);
    assert!(matches!(r, Err(ChinSqlError::BuilderSqlError(_))));
}

#[test]
fn updater_without_filter_is_refused() {
    let r = SqlUpdater::new("t".to_string())
        .set("a".to_string(), SqlValue::I64(1))
        .into_sql_seg(DbType::Sqlite);
    assert!(matches!(r, Err(ChinSqlError::FilterBuildError(_))));
}

#[test]
fn sql_seg_of_keeps_text_and_values() {
    let seg = SqlSeg::of("x".to_string(), vec![SqlValue::Bool(true)]);
    assert_eq!(seg.seg, "x");
    assert_eq!(seg.values, vec![SqlValue::Bool(true)]);
    let again = seg.into_sql_seg(DbType::Sqlite).unwrap();
    assert_eq!(again.seg, "x");
}

#[test]
fn plain_text_renders_as_itself() {
    let seg = "select 1".into_sql_seg(DbType::Sqlite).unwrap();
    assert_eq!(seg.seg, "select 1");
    let seg = "select 2".to_string().into_sql_seg(DbType::Postgres).unwrap();
    assert_eq!(seg.seg, "select 2");
    assert!(seg.values.is_empty());
}

#[test]
fn filter_count_counts_and_checks() {
    let c = actor_sqlite::FilterCount::new();
    assert!(!c.check());
    let c = c.increament().increament();
    assert_eq!(c.filter_count, 2);
    assert!(c.check());
    let quiet = actor_sqlite::FilterCount { check_filter_count: false, filter_count: 3 };
    assert!(!quiet.check());
}

#[test]
fn every_scalar_kind_can_be_bound() {
    let vals = vec![
        SqlValue::I8(1),
        SqlValue::I16(2),
        SqlValue::I32(3),
        SqlValue::I64(4),
        SqlValue::Str("s".to_string()),
        SqlValue::Bool(true),
        SqlValue::F64Bits(1.5f64.to_bits()),
        SqlValue::Blob(vec![1, 2]),
        SqlValue::Utc(1_700_000_000_000_000),
        SqlValue::FixedOffset(TimestampTz { epoch_micros: 0, offset_secs: 3600 }),
        SqlValue::Null(LogicFieldType::Text),
        SqlValue::NullUnknown,
    ];
    let n = vals.len();
    let w = Wheres::in_list("k".to_string(), vals);
    let mut pht = dollars();
    let seg = w.build(DbType::Postgres, &mut pht).unwrap();
    assert_eq!(seg.values.len(), n);
    assert_eq!(pht, PlaceHolderType::DollarNumber(12));
    assert!(seg.seg.starts_with("k in ($1,"));
    assert!(seg.seg.ends_with("$12)"));
}

#[test]
fn rendering_errors_carry_their_fixed_messages() {
    match SqlBuilder::new().into_sql_seg(DbType::Sqlite) {
        Err(ChinSqlError::BuilderSqlError(m)) => assert_eq!(m, "segs is empty"),
        other => panic!("expected the empty-builder error, got {other:?}"),
    }
    match SqlInserter::new("t".to_string()).into_sql_seg(DbType::Sqlite) {
        Err(ChinSqlError::BuilderSqlError(m)) => assert_eq!(m, "insert files is empty"),
        other => panic!("expected the empty-insert error, got {other:?}"),
    }
    match SqlUpdater::new("t".to_string()).into_sql_seg(DbType::Sqlite) {
        Err(ChinSqlError::BuilderSqlError(m)) => assert_eq!(m, "update setters is empty"),
        other => panic!("expected the empty-setters error, got {other:?}"),
    }
    match SqlUpdater::new("t".to_string())
        .set("a".to_string(), SqlValue::I64(1))
        .into_sql_seg(DbType::Sqlite)
    {
        Err(ChinSqlError::FilterBuildError(m)) => assert_eq!(m, "filter_is_empty"),
        other => panic!("expected the empty-filter error, got {other:?}"),
    }
}
