use actor_sqlite::{
    DbType, Froms, GroupBy, Having, ILikeType, IntoSqlSeg, JoinCond, JoinTable, JoinType, Joins,
    LimitOffset, OrderBy, SqlField, SqlReader, SqlTypedField, SqlValue, Text, Varchar, Wheres,
};

fn field(table: &str, name: &str) -> SqlField {
    SqlField {
        alias: None,
        table_alias: table.to_string(),
        field_name: name.to_string(),
    }
}

#[test]
fn reader_renders_select_from_where_limit() {
    let sql = SqlReader::builder(
        vec![field("t", "a")],
        Froms::Table { table_name: "tbl".to_string(), alias: "t".to_string() },
    )
    .wheres(Wheres::equal("t.a".to_string(), SqlValue::I64(1)))
    .limit(LimitOffset::new(2))
    .build()
    .into_sql_seg(DbType::Sqlite)
    .unwrap();
    assert_eq!(sql.seg, "select t.a from tbl as t  where t.a = ? limit 2 ");
    assert_eq!(sql.values, vec![SqlValue::I64(1)]);
}

#[test]
fn reader_renders_field_aliases_and_order() {
    let mut aliased = field("t", "a");
    aliased.alias = Some("x".to_string());
    let sql = SqlReader::builder(
        vec![aliased, field("t", "b")],
        Froms::Table { table_name: "tbl".to_string(), alias: "t".to_string() },
    )
    .order_by(vec![OrderBy::Desc("t.b".to_string())])
    .build()
    .into_sql_seg(DbType::Sqlite)
    .unwrap();
    assert_eq!(
        sql.seg,
        "select t.a as x, t.b from tbl as t order by t.b desc "
    );
}

#[test]
fn reader_having_renders_after_grouping() {
    let sql = SqlReader::builder(
        vec![field("t", "a")],
        Froms::Table { table_name: "tbl".to_string(), alias: "t".to_string() },
    )
    .group_by(GroupBy::Plain(vec!["t.a".to_string()]))
    .having(Having::Custom("count(*) > 1".to_string()))
    .build()
    .into_sql_seg(DbType::Sqlite)
    .unwrap();
    assert_eq!(
        sql.seg,
        "select t.a from tbl as t order by t.a having count(*) > 1 "
    );
}

#[test]
fn joins_render_base_join_and_conditions() {
    let joins = Joins::new(Froms::Table {
        table_name: "x".to_string(),
        alias: "x".to_string(),
    })
    .join(Some(JoinTable {
        join_type: JoinType::LeftJoin,
        table: Froms::Table { table_name: "y".to_string(), alias: "y".to_string() },
        conds: vec![JoinCond::new(
            "x".to_string(),
            "id".to_string(),
            "y".to_string(),
            "xid".to_string(),
        )],
    }))
    .join(None);
    let sql = joins.into_builder().into_sql_seg(DbType::Sqlite).unwrap();
    assert_eq!(sql.seg, "x as x left join y as y on x . id = y . xid ");
}

#[test]
fn joins_join_if_and_join_some_guard_their_tables() {
    let make = |kind: JoinType| JoinTable {
        join_type: kind,
        table: Froms::Table { table_name: "y".to_string(), alias: "y".to_string() },
        conds: vec![
            JoinCond::new("x".to_string(), "a".to_string(), "y".to_string(), "a".to_string()),
            JoinCond::new("x".to_string(), "b".to_string(), "y".to_string(), "b".to_string()),
        ],
    };
    let joins = Joins::new(Froms::Table {
        table_name: "x".to_string(),
        alias: "x".to_string(),
    })
    .join_if(false, Some(make(JoinType::InnerJoin)))
    .join_some(Some(JoinType::InnerJoin), make);
    let sql = joins.into_builder().into_sql_seg(DbType::Sqlite).unwrap();
    assert_eq!(
        sql.seg,
        "x as x inner join y as y on x . a = y . a and x . b = y . b "
    );
}

#[test]
fn froms_union_renders_both_sides() {
    let reader = |t: &str| {
        SqlReader::builder(
            vec![field("t", "a")],
            Froms::Table { table_name: t.to_string(), alias: "t".to_string() },
        )
        .build()
    };
    let union = Froms::Union { table: vec![reader("x"), reader("y")], alias: "u".to_string() };
    let sql = union.into_builder().into_sql_seg(DbType::Sqlite).unwrap();
    assert_eq!(
        sql.seg,
        "( select t.a from x as t union select t.a from y as t ) as  u "
    );
}

#[test]
fn typed_fields_build_comparison_filters() {
    let f: SqlTypedField<i64> = SqlTypedField::new("t".to_string(), "n".to_string());
    assert_eq!(f.twn(), "t.n");
    let mut pht = actor_sqlite::PlaceHolderType::QuestionMark;
    let seg = f.v_gt(5).build(DbType::Sqlite, &mut pht).unwrap();
    assert_eq!(seg.seg, "t.n > ?");
    assert_eq!(seg.values, vec![SqlValue::I64(5)]);
    let seg = f.v_le(7).build(DbType::Sqlite, &mut pht).unwrap();
    assert_eq!(seg.seg, "t.n <= ?");
    let seg = f
        .v_in(vec![SqlValue::I64(1), SqlValue::I64(2)])
        .build(DbType::Sqlite, &mut pht)
        .unwrap();
    assert_eq!(seg.seg, "t.n in (?,?)");
}

#[test]
fn typed_text_field_builds_ilike() {
    let f: SqlTypedField<Text> = SqlTypedField::new("t".to_string(), "s".to_string());
    let mut pht = actor_sqlite::PlaceHolderType::QuestionMark;
    let seg = f.v_ilike("abc", ILikeType::RightFuzzy).build(DbType::Sqlite, &mut pht).unwrap();
    assert_eq!(seg.seg, "t.s like ?");
    assert_eq!(seg.values, vec![SqlValue::Str("abc%".to_string())]);
}

#[test]
fn typed_field_aliases_rename_but_keep_the_column() {
    let f: SqlTypedField<i64> = SqlTypedField::new("t".to_string(), "n".to_string())
        .with_alias("m".to_string())
        .with_table_alias("u".to_string());
    assert_eq!(f.twn(), "u.n");
    let erased = f.erased();
    assert_eq!(erased.alias, Some("m".to_string()));
    assert_eq!(erased.table_alias, "u".to_string());
    assert_eq!(erased.field_name, "n".to_string());
}

#[test]
fn varchar_enforces_its_bound() {
    let ok: Varchar<5> = Varchar::try_new("abc").unwrap();
    assert_eq!(ok.as_str(), "abc");
    let err = Varchar::<5>::try_new("abcdef");
    assert!(matches!(
        err,
        Err(actor_sqlite::ChinSqlError::TransformError(_))
    ));
    let cut: Varchar<2> = Varchar::limit("abcd");
    assert_eq!(cut.as_str(), "ab");
}

#[test]
fn text_and_shared_str_keep_their_characters() {
    let t = Text::new("hello");
    assert_eq!(t.as_str(), "hello");
    let s = actor_sqlite::SharedStr::new("shared");
    assert_eq!(s.as_str(), "shared");
    assert_eq!(s.clone().as_str(), "shared");
}

#[test]
fn varchar_limit_cuts_on_a_character_boundary() {
    let cut: Varchar<2> = Varchar::limit("abcd");
    assert_eq!(cut.as_str(), "ab");
    // Two bytes would split the two-byte character: only one byte fits.
    let cut: Varchar<2> = Varchar::limit("a\u{00e9}");
    assert_eq!(cut.as_str(), "a");
    // Three bytes keep it whole.
    let cut: Varchar<3> = Varchar::limit("a\u{00e9}");
    assert_eq!(cut.as_str(), "a\u{00e9}");
    // Shorter text than the bound is kept as it is.
    let cut: Varchar<9> = Varchar::limit("ab");
    assert_eq!(cut.as_str(), "ab");
}

#[test]
fn text_types_convert_to_owned_strings() {
    let t = Text::new("hello");
    assert_eq!(t.into_string(), "hello".to_string());
    let v: Varchar<8> = Varchar::try_new("world").unwrap();
    assert_eq!(v.into_string(), "world".to_string());
}

#[test]
fn varchar_accepts_only_string_values() {
    let ok = Varchar::<5>::try_from_value(&SqlValue::Str("abc".to_string())).unwrap();
    assert_eq!(ok.as_str(), "abc");
    let long = Varchar::<2>::try_from_value(&SqlValue::Str("abc".to_string()));
    assert!(matches!(
        long,
        Err(actor_sqlite::ChinSqlError::TransformError(_))
    ));
    let wrong = Varchar::<5>::try_from_value(&SqlValue::I64(3));
    assert!(matches!(
        wrong,
        Err(actor_sqlite::ChinSqlError::TransformError(_))
    ));
}
