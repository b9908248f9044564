//! The select-statement forms: table sources (plain tables, sub-queries,
//! joins, unions) and the full reader with filter, grouping, ordering and
//! limit. Each form converts to a [`SqlBuilder`] whose view is pinned to
//! the spec functions below, so rendering inherits the builder's exact
//! contract.

use vstd::prelude::*;

verus! {

use crate::place_holder::{DbType, PlaceHolderType};
use crate::seg::{ChinSqlError, ChinSqlErrorKind, IntoSqlSeg, SqlSeg};
use crate::sql_builder::{
    sb_view, segs_v_count, spec_sb, LimitOffset, OrderBy, SegOrValV, SegV, SqlBuilder,
    spec_orders,
};
use crate::sql_value::SqlValue;
use crate::tablefield::SqlField;
use crate::text::{join_strings, spec_join};
use crate::wheres::Wheres;

/// A literal-text segment view.
pub open spec fn sov_str(t: Seq<char>) -> SegV {
    SegV::SegOrVal(SegOrValV::Str(t))
}

#[derive(Debug, Clone, Copy, PartialEq, Eq, Structural)]
pub enum JoinType {
    LeftJoin,
    InnerJoin,
    RightJoin,
}

/// The text a join kind renders to.
pub open spec fn join_type_text(t: JoinType) -> Seq<char> {
    match t {
        JoinType::LeftJoin => "left join"@,
        JoinType::InnerJoin => "inner join"@,
        JoinType::RightJoin => "right join"@,
    }
}

fn join_type_str(t: JoinType) -> (r: &'static str)
    ensures
        r@ == join_type_text(t),
{
    match t {
        JoinType::LeftJoin => "left join",
        JoinType::InnerJoin => "inner join",
        JoinType::RightJoin => "right join",
    }
}

/// One equality between two joined columns.
#[derive(Debug)]
pub struct JoinCond {
    pub l_table: String,
    pub l_field: String,
    pub r_table: String,
    pub r_field: String,
}

impl JoinCond {
    pub fn new(l_table: String, l_field: String, r_table: String, r_field: String) -> (r: Self)
        ensures
            r.l_table == l_table,
            r.l_field == l_field,
            r.r_table == r_table,
            r.r_field == r_field,
    {
        Self { l_table, l_field, r_table, r_field }
    }
}

/// One joined table: the kind of join, the source, and the conditions.
#[derive(Debug)]
pub struct JoinTable {
    pub join_type: JoinType,
    pub table: Froms,
    pub conds: Vec<JoinCond>,
}

/// A base source with its joined tables.
#[derive(Debug)]
pub struct Joins {
    pub base: Froms,
    pub joins: Vec<JoinTable>,
}

/// A table source of a select statement.
#[derive(Debug)]
pub enum Froms {
    Table { table_name: String, alias: String },
    SubQuery { table: Box<SqlReader>, alias: String },
    Joins(Box<Joins>),
    Union { table: Vec<SqlReader>, alias: String },
}

/// An optional `group by` clause.
#[derive(Debug)]
pub enum GroupBy {
    Plain(Vec<String>),
    NoGroup,
}

impl Default for GroupBy {
    fn default() -> (r: Self)
        ensures
            r is NoGroup,
    {
        GroupBy::NoGroup
    }
}

/// An optional `having` clause.
#[derive(Debug)]
pub enum Having {
    Custom(String),
    NoHaving,
}

impl Default for Having {
    fn default() -> (r: Self)
        ensures
            r is NoHaving,
    {
        Having::NoHaving
    }
}

/// A full select statement under construction.
#[derive(Debug)]
pub struct SqlReader {
    pub fields: Vec<SqlField>,
    pub froms: Froms,
    pub wheres: Wheres,
    pub group_by: GroupBy,
    pub having: Having,
    pub order_by: Option<Vec<OrderBy>>,
    pub limit: Option<LimitOffset>,
}

/// Builds a [`SqlReader`] step by step.
#[derive(Debug)]
pub struct SqlReaderBuilder {
    pub reader: SqlReader,
}

/// A select statement used as a table.
#[derive(Debug)]
pub struct SubQueryTable {
    pub reader: SqlReader,
}

/// Something that can render itself as a select-field list.
pub trait Fields {
    fn to_select_fields(&self) -> String;
}

impl Fields for String {
    fn to_select_fields(&self) -> (r: String) {
        self.clone()
    }
}

/// The select text of one column: `table.column`, with ` as alias` when an
/// output alias is set.
pub open spec fn field_sel(f: SqlField) -> Seq<char> {
    match f.alias {
        Some(a) => f.table_alias@ + "."@ + f.field_name@ + " as "@ + a@,
        None => f.table_alias@ + "."@ + f.field_name@,
    }
}

/// The joined select-field list.
pub open spec fn select_text(fields: Seq<SqlField>) -> Seq<char> {
    spec_join(fields.map_values(|f: SqlField| field_sel(f)), ", "@)
}

/// The segment views one join condition becomes.
pub open spec fn cond_segs(c: JoinCond) -> Seq<SegV> {
    seq![
        sov_str(c.l_table@),
        sov_str("."@),
        sov_str(c.l_field@),
        sov_str("="@),
        sov_str(c.r_table@),
        sov_str("."@),
        sov_str(c.r_field@),
    ]
}

/// Join conditions joined with `and`.
pub open spec fn conds_segs(cs: Seq<JoinCond>) -> Seq<SegV>
    decreases cs,
{
    if cs.len() == 0 {
        Seq::empty()
    } else if cs.len() == 1 {
        cond_segs(cs[0])
    } else {
        cond_segs(cs[0]) + seq![sov_str("and"@)] + conds_segs(cs.drop_first())
    }
}

/// The segment views one joined table becomes.
pub open spec fn join_table_segs(t: JoinTable) -> Seq<SegV>
    decreases t,
{
    seq![sov_str(join_type_text(t.join_type))] + froms_segs(t.table) + seq![sov_str("on"@)]
        + conds_segs(t.conds@)
}

/// The segment views of a joined-table list, in order.
pub open spec fn join_tables_segs(ts: Seq<JoinTable>) -> Seq<SegV>
    decreases ts,
{
    if ts.len() == 0 {
        Seq::empty()
    } else {
        join_table_segs(ts[0]) + join_tables_segs(ts.drop_first())
    }
}

/// The segment views a join expression becomes.
pub open spec fn joins_segs(j: Joins) -> Seq<SegV>
    decreases j,
{
    froms_segs(j.base) + join_tables_segs(j.joins@)
}

/// Select statements joined with `union`.
pub open spec fn union_segs(rs: Seq<SqlReader>) -> Seq<SegV>
    decreases rs,
{
    if rs.len() == 0 {
        Seq::empty()
    } else if rs.len() == 1 {
        reader_segs(rs[0])
    } else {
        reader_segs(rs[0]) + seq![sov_str("union"@)] + union_segs(rs.drop_first())
    }
}

/// The segment views a table source becomes.
pub open spec fn froms_segs(f: Froms) -> Seq<SegV>
    decreases f,
{
    match f {
        Froms::Table { table_name, alias } => seq![
            sov_str(table_name@),
            sov_str("as"@),
            sov_str(alias@),
        ],
        Froms::SubQuery { table, alias } => seq![sov_str("("@)] + reader_segs(*table) + seq![
            sov_str(") as"@),
            sov_str(alias@),
        ],
        Froms::Joins(j) => joins_segs(*j),
        Froms::Union { table, alias } => seq![sov_str("("@)] + union_segs(table@) + seq![
            sov_str(") as "@),
            sov_str(alias@),
        ],
    }
}

/// The segment views a full select statement becomes.
pub open spec fn reader_segs(r: SqlReader) -> Seq<SegV>
    decreases r,
{
    seq![sov_str("select"@), sov_str(select_text(r.fields@)), sov_str("from"@)] + froms_segs(
        r.froms,
    ) + seq![SegV::Where(r.wheres)] + (match r.group_by {
        GroupBy::Plain(cows) => seq![
            sov_str("order by"@),
            sov_str(spec_join(cows@.map_values(|s: String| s@), ", "@)),
        ],
        GroupBy::NoGroup => Seq::empty(),
    }) + (match r.having {
        Having::Custom(cow) => seq![sov_str("having"@), sov_str(cow@)],
        Having::NoHaving => Seq::empty(),
    }) + (match r.order_by {
        Some(obs) => if spec_orders(obs@).len() > 0 {
            seq![
                sov_str("order by"@),
                sov_str(spec_join(spec_orders(obs@), ", "@)),
            ]
        } else {
            Seq::empty()
        },
        None => Seq::empty(),
    }) + (match r.limit {
        Some(lo) => seq![SegV::LimitOffset(lo)],
        None => Seq::empty(),
    })
}

/// Renders the select-field list of a reader.
fn select_string(fields: &Vec<SqlField>) -> (r: String)
    ensures
        r@ == select_text(fields@),
{
    let mut texts: Vec<String> = Vec::new();
    let mut i: usize = 0;
    while i < fields.len()
        invariant
            i <= fields@.len(),
            texts@.len() == i,
            forall|j: int| 0 <= j < i ==> texts@[j]@ == field_sel(fields@[j]),
        decreases fields@.len() - i,
    {
        let f = &fields[i];
        let mut t = f.table_alias.clone();
        t.append(".");
        t.append(f.field_name.as_str());
        match &f.alias {
            Some(a) => {
                t.append(" as ");
                t.append(a.as_str());
            },
            None => {},
        }
        assert(t@ =~= field_sel(fields@[i as int]));
        texts.push(t);
        i = i + 1;
    }
    let r = join_strings(&texts, ", ");
    assert(texts@.map_values(|s: String| s@) =~= fields@.map_values(|f: SqlField| field_sel(f)));
    r
}

impl Joins {
    pub fn new(base: Froms) -> (r: Self)
        ensures
            r.base == base,
            r.joins@.len() == 0,
    {
        Self { base, joins: Vec::new() }
    }

    /// Adds one joined table, if there is one.
    pub fn join(self, table: Option<JoinTable>) -> (r: Self)
        ensures
            r.base == self.base,
            table matches Some(t) ==> r.joins@ == self.joins@.push(t),
            table is None ==> r.joins == self.joins,
    {
        let mut joins = self.joins;
        match table {
            Some(t) => {
                joins.push(t);
            },
            None => {},
        }
        Self { base: self.base, joins }
    }

    /// Adds the joined table only when the flag holds.
    pub fn join_if(self, flag: bool, table: Option<JoinTable>) -> (r: Self)
        ensures
            r.base == self.base,
            flag ==> (table matches Some(t) ==> r.joins@ == self.joins@.push(t)),
            !flag ==> r.joins == self.joins,
            table is None ==> r.joins == self.joins,
    {
        if flag {
            self.join(table)
        } else {
            self
        }
    }

    /// Adds a joined table mapped from the value, if there is one.
    pub fn join_some<V, F: FnOnce(V) -> JoinTable>(self, v: Option<V>, map: F) -> (r: Self)
        requires
            v matches Some(x) ==> call_requires(map, (x,)),
        ensures
            r.base == self.base,
            v matches Some(x) ==> (exists|t: JoinTable|
                call_ensures(map, (x,), t) && r.joins@ == self.joins@.push(t)),
            v is None ==> r.joins == self.joins,
    {
        match v {
            Some(x) => self.join(Some(map(x))),
            None => self,
        }
    }

    /// Turns this join expression into builder segments.
    pub fn into_builder(self) -> (r: SqlBuilder)
        ensures
            sb_view(r) == joins_segs(self),
        decreases self,
    {
        let ghost me = self;
        let base_sb = self.base.into_builder();
        let r = add_join_tables(base_sb, self.joins);
        proof {
            assert(sb_view(r) =~= joins_segs(me));
        }
        r
    }
}

/// Appends the conditions of one join, joined with `and`.
fn add_conds(sb: SqlBuilder, conds: Vec<JoinCond>) -> (r: SqlBuilder)
    ensures
        sb_view(r) == sb_view(sb) + conds_segs(conds@),
    decreases conds@,
{
    let ghost sb0 = sb_view(sb);
    let ghost c0 = conds@;
    let mut conds = conds;
    if conds.len() == 0 {
        assert(sb_view(sb) =~= sb0 + conds_segs(c0));
        sb
    } else {
        let first = conds.remove(0);
        assert(first == c0[0]);
        assert(conds@ =~= c0.drop_first());
        let more = conds.len() > 0;
        let out = sb.seg(first.l_table).seg(".".to_owned()).seg(first.l_field).seg(
            "=".to_owned(),
        ).seg(first.r_table).seg(".".to_owned()).seg(first.r_field);
        if more {
            let out = out.seg("and".to_owned());
            proof {
                assert(c0.drop_first() =~= c0.subrange(1, c0.len() as int));
                assert(decreases_to!(c0 => c0.subrange(1, c0.len() as int)));
            }
            let r = add_conds(out, conds);
            proof {
                assert(sb_view(r) =~= sb0 + conds_segs(c0));
            }
            r
        } else {
            proof {
                assert(sb_view(out) =~= sb0 + conds_segs(c0));
            }
            out
        }
    }
}

/// Appends the segments of a joined-table list.
fn add_join_tables(sb: SqlBuilder, ts: Vec<JoinTable>) -> (r: SqlBuilder)
    ensures
        sb_view(r) == sb_view(sb) + join_tables_segs(ts@),
    decreases ts@,
{
    let ghost sb0 = sb_view(sb);
    let ghost t0 = ts@;
    let mut ts = ts;
    if ts.len() == 0 {
        assert(sb_view(sb) =~= sb0 + join_tables_segs(t0));
        sb
    } else {
        let first = ts.remove(0);
        assert(first == t0[0]);
        assert(ts@ =~= t0.drop_first());
        let with_kind = sb.seg(join_type_str(first.join_type).to_owned());
        let with_table = with_kind.merge(first.table.into_builder());
        let with_on = with_table.seg("on".to_owned());
        let with_conds = add_conds(with_on, first.conds);
        proof {
            assert(sb_view(with_conds) =~= sb0 + join_table_segs(t0[0]));
            assert(t0.drop_first() =~= t0.subrange(1, t0.len() as int));
            assert(decreases_to!(t0 => t0.subrange(1, t0.len() as int)));
        }
        let r = add_join_tables(with_conds, ts);
        proof {
            assert(sb_view(r) =~= sb0 + join_tables_segs(t0));
        }
        r
    }
}

/// Appends the readers of a union, joined with `union`.
fn add_union(sb: SqlBuilder, rs: Vec<SqlReader>) -> (r: SqlBuilder)
    ensures
        sb_view(r) == sb_view(sb) + union_segs(rs@),
    decreases rs@,
{
    let ghost sb0 = sb_view(sb);
    let ghost r0 = rs@;
    let mut rs = rs;
    if rs.len() == 0 {
        assert(sb_view(sb) =~= sb0 + union_segs(r0));
        sb
    } else {
        let first = rs.remove(0);
        assert(first == r0[0]);
        assert(rs@ =~= r0.drop_first());
        let more = rs.len() > 0;
        let out = sb.merge(first.into_builder());
        if more {
            let out = out.seg("union".to_owned());
            proof {
                assert(r0.drop_first() =~= r0.subrange(1, r0.len() as int));
                assert(decreases_to!(r0 => r0.subrange(1, r0.len() as int)));
            }
            let r = add_union(out, rs);
            proof {
                assert(sb_view(r) =~= sb0 + union_segs(r0));
            }
            r
        } else {
            proof {
                assert(sb_view(out) =~= sb0 + union_segs(r0));
            }
            out
        }
    }
}

impl Froms {
    /// Turns this table source into builder segments.
    pub fn into_builder(self) -> (r: SqlBuilder)
        ensures
            sb_view(r) == froms_segs(self),
        decreases self,
    {
        let ghost me = self;
        match self {
            Froms::Table { table_name, alias } => {
                let r = SqlBuilder::new().seg(table_name).seg("as".to_owned()).seg(alias);
                proof {
                    assert(sb_view(r) =~= froms_segs(me));
                }
                r
            },
            Froms::SubQuery { table, alias } => {
                let inner = (*table).into_builder();
                let r = SqlBuilder::new().seg("(".to_owned()).merge(inner).seg(
                    ") as".to_owned(),
                ).seg(alias);
                proof {
                    assert(sb_view(r) =~= froms_segs(me));
                }
                r
            },
            Froms::Joins(j) => {
                let r = (*j).into_builder();
                proof {
                    assert(sb_view(r) =~= froms_segs(me));
                }
                r
            },
            Froms::Union { table, alias } => {
                let opened = SqlBuilder::new().seg("(".to_owned());
                let joined = add_union(opened, table);
                let r = joined.seg(") as ".to_owned()).seg(alias);
                proof {
                    assert(sb_view(r) =~= froms_segs(me));
                }
                r
            },
        }
    }
}

impl SqlReader {
    /// Starts building a reader over the fields and source; the filter is
    /// empty and nothing is grouped, ordered or limited.
    pub fn builder(fields: Vec<SqlField>, froms: Froms) -> (r: SqlReaderBuilder)
        ensures
            r.reader.fields == fields,
            r.reader.froms == froms,
            r.reader.wheres is Nothing,
            r.reader.group_by is NoGroup,
            r.reader.having is NoHaving,
            r.reader.order_by is None,
            r.reader.limit is None,
    {
        SqlReaderBuilder {
            reader: SqlReader {
                fields,
                froms,
                wheres: Wheres::Nothing,
                group_by: GroupBy::NoGroup,
                having: Having::NoHaving,
                order_by: None,
                limit: None,
            },
        }
    }

    /// Replaces the limit.
    pub fn limit(self, limit: LimitOffset) -> (r: Self)
        ensures
            r.limit == Some(limit),
            r.fields == self.fields,
            r.froms == self.froms,
            r.wheres == self.wheres,
            r.group_by == self.group_by,
            r.having == self.having,
            r.order_by == self.order_by,
    {
        SqlReader {
            fields: self.fields,
            froms: self.froms,
            wheres: self.wheres,
            group_by: self.group_by,
            having: self.having,
            order_by: self.order_by,
            limit: Some(limit),
        }
    }

    /// Turns this statement into builder segments.
    #[verifier::rlimit(100)]
    pub fn into_builder(self) -> (r: SqlBuilder)
        ensures
            sb_view(r) == reader_segs(self),
        decreases self,
    {
        let ghost me = self;
        let select = select_string(&self.fields);
        let opened = SqlBuilder::new().seg("select".to_owned()).seg(select).seg(
            "from".to_owned(),
        );
        let with_from = opened.merge(self.froms.into_builder());
        let with_where = with_from.where_clause(self.wheres);
        let with_group = match self.group_by {
            GroupBy::Plain(cows) => {
                let joined = join_strings(&cows, ", ");
                with_where.seg("order by".to_owned()).seg(joined)
            },
            GroupBy::NoGroup => with_where,
        };
        let with_having = match self.having {
            Having::Custom(cow) => with_group.seg("having".to_owned()).seg(cow),
            Having::NoHaving => with_group,
        };
        let with_order = match self.order_by {
            Some(obs) => {
                let ghost obs0 = obs@;
                let texts = crate::sql_builder::order_texts(obs);
                if texts.len() > 0 {
                    let joined = join_strings(&texts, ", ");
                    with_having.seg("order by".to_owned()).seg(joined)
                } else {
                    with_having
                }
            },
            None => with_having,
        };
        let r = match self.limit {
            Some(lo) => with_order.limit_offset(lo),
            None => with_order,
        };
        proof {
            assert(sb_view(r) =~= reader_segs(me));
        }
        r
    }
}

impl SqlReaderBuilder {
    /// Replaces the filter.
    pub fn wheres(self, wheres: Wheres) -> (r: Self)
        ensures
            r.reader.wheres == wheres,
            r.reader.fields == self.reader.fields,
            r.reader.froms == self.reader.froms,
            r.reader.group_by == self.reader.group_by,
            r.reader.having == self.reader.having,
            r.reader.order_by == self.reader.order_by,
            r.reader.limit == self.reader.limit,
    {
        SqlReaderBuilder {
            reader: SqlReader {
                fields: self.reader.fields,
                froms: self.reader.froms,
                wheres,
                group_by: self.reader.group_by,
                having: self.reader.having,
                order_by: self.reader.order_by,
                limit: self.reader.limit,
            },
        }
    }

    /// Replaces the ordering keys.
    pub fn order_by(self, orders: Vec<OrderBy>) -> (r: Self)
        ensures
            r.reader.order_by == Some(orders),
            r.reader.fields == self.reader.fields,
            r.reader.froms == self.reader.froms,
            r.reader.wheres == self.reader.wheres,
            r.reader.group_by == self.reader.group_by,
            r.reader.having == self.reader.having,
            r.reader.limit == self.reader.limit,
    {
        SqlReaderBuilder {
            reader: SqlReader {
                fields: self.reader.fields,
                froms: self.reader.froms,
                wheres: self.reader.wheres,
                group_by: self.reader.group_by,
                having: self.reader.having,
                order_by: Some(orders),
                limit: self.reader.limit,
            },
        }
    }

    /// Replaces the limit.
    pub fn limit(self, limit: LimitOffset) -> (r: Self)
        ensures
            r.reader.limit == Some(limit),
            r.reader.fields == self.reader.fields,
            r.reader.froms == self.reader.froms,
            r.reader.wheres == self.reader.wheres,
            r.reader.group_by == self.reader.group_by,
            r.reader.having == self.reader.having,
            r.reader.order_by == self.reader.order_by,
    {
        SqlReaderBuilder {
            reader: SqlReader {
                fields: self.reader.fields,
                froms: self.reader.froms,
                wheres: self.reader.wheres,
                group_by: self.reader.group_by,
                having: self.reader.having,
                order_by: self.reader.order_by,
                limit: Some(limit),
            },
        }
    }

    /// Replaces the grouping.
    pub fn group_by(self, group_by: GroupBy) -> (r: Self)
        ensures
            r.reader.group_by == group_by,
            r.reader.fields == self.reader.fields,
            r.reader.froms == self.reader.froms,
            r.reader.wheres == self.reader.wheres,
            r.reader.having == self.reader.having,
            r.reader.order_by == self.reader.order_by,
            r.reader.limit == self.reader.limit,
    {
        SqlReaderBuilder {
            reader: SqlReader {
                fields: self.reader.fields,
                froms: self.reader.froms,
                wheres: self.reader.wheres,
                group_by,
                having: self.reader.having,
                order_by: self.reader.order_by,
                limit: self.reader.limit,
            },
        }
    }

    /// Replaces the having clause.
    pub fn having(self, having: Having) -> (r: Self)
        ensures
            r.reader.having == having,
            r.reader.fields == self.reader.fields,
            r.reader.froms == self.reader.froms,
            r.reader.wheres == self.reader.wheres,
            r.reader.group_by == self.reader.group_by,
            r.reader.order_by == self.reader.order_by,
            r.reader.limit == self.reader.limit,
    {
        SqlReaderBuilder {
            reader: SqlReader {
                fields: self.reader.fields,
                froms: self.reader.froms,
                wheres: self.reader.wheres,
                group_by: self.reader.group_by,
                having,
                order_by: self.reader.order_by,
                limit: self.reader.limit,
            },
        }
    }

    pub fn build(self) -> (r: SqlReader)
        ensures
            r == self.reader,
    {
        self.reader
    }
}

impl IntoSqlSeg for SqlReader {
    open spec fn ph_need(&self) -> nat {
        segs_v_count(reader_segs(*self))
    }

    open spec fn spec_err_kind(&self, db_type: DbType, p: PlaceHolderType) -> ChinSqlErrorKind {
        ChinSqlErrorKind::Builder
    }

    open spec fn spec_err_msg(&self, db_type: DbType, p: PlaceHolderType) -> Seq<char> {
        Seq::empty()
    }

    open spec fn spec_seg(&self, db_type: DbType, p: PlaceHolderType) -> Option<(
        Seq<char>,
        Seq<SqlValue>,
    )> {
        if reader_segs(*self).len() == 0 {
            None
        } else {
            Some(spec_sb(reader_segs(*self), db_type, p, Seq::empty(), Seq::empty()))
        }
    }

    fn into_sql_seg2(self, db_type: DbType, pht: &mut PlaceHolderType) -> (r: Result<
        SqlSeg,
        ChinSqlError,
    >) {
        let ghost me = self;
        let b = self.into_builder();
        proof {
            assert(reader_segs(me).len() >= 3);
        }
        b.into_sql_seg2(db_type, pht)
    }

    fn into_sql_seg(self, db_type: DbType) -> (r: Result<SqlSeg, ChinSqlError>) {
        match db_type {
            DbType::Sqlite => {
                let mut pht = PlaceHolderType::QuestionMark;
                self.into_sql_seg2(db_type, &mut pht)
            },
            DbType::Postgres => {
                let mut pht = PlaceHolderType::DollarNumber(0);
                self.into_sql_seg2(db_type, &mut pht)
            },
        }
    }
}

} // verus!
