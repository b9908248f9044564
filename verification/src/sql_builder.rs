//! The general statement builder: an ordered list of segments (raw text,
//! text-or-value pieces, filters, limits, sub-queries, custom pieces) that
//! renders to one [`SqlSeg`]. Every segment list has a spec-level view
//! (a sequence of [`SegV`]), and rendering is pinned to the fold
//! [`spec_sb`] over that view.

use vstd::prelude::*;

verus! {

use crate::place_holder::{DbType, PlaceHolderType};
use crate::seg::{ChinSqlError, ChinSqlErrorKind, IntoSqlSeg, SqlSeg};
use crate::sql_value::{SegOrVal, SqlValue};
use crate::text::{join_strings, spec_dec, spec_join, usize_to_string};
use crate::wheres::{sov_count, Wheres};

/// The spec-level face of one [`SegOrVal`]: the text's characters, or the
/// bound value itself.
pub enum SegOrValV {
    Str(Seq<char>),
    Val(SqlValue),
}

/// The view of a raw segment-or-value piece.
pub open spec fn sov_view(s: SegOrVal) -> SegOrValV {
    match s {
        SegOrVal::Str(text) => SegOrValV::Str(text@),
        SegOrVal::Val(v) => SegOrValV::Val(v),
    }
}

/// A limit with an optional offset.
#[derive(Debug, Clone, Copy, PartialEq, Eq, Structural)]
pub struct LimitOffset {
    pub limit: usize,
    pub offset: Option<usize>,
}

impl LimitOffset {
    pub fn new(limit: usize) -> (r: Self)
        ensures
            r.limit == limit,
            r.offset is None,
    {
        Self { limit, offset: None }
    }

    pub fn offset(self, offset: usize) -> (r: Self)
        ensures
            r.limit == self.limit,
            r.offset == Some(offset),
    {
        Self { limit: self.limit, offset: Some(offset) }
    }

    pub fn offset_if_some(self, offset: Option<usize>) -> (r: Self)
        ensures
            r.limit == self.limit,
            r.offset == offset,
    {
        Self { limit: self.limit, offset }
    }

    /// The text this limit renders to: `limit N`, with ` offset M` when an
    /// offset is set.
    pub open spec fn spec_text(self) -> Seq<char> {
        match self.offset {
            Some(v) => "limit "@ + spec_dec(self.limit as nat) + " offset "@ + spec_dec(v as nat),
            None => "limit "@ + spec_dec(self.limit as nat),
        }
    }

    /// Renders this limit to its text.
    pub fn build_text(&self) -> (r: String)
        ensures
            r@ == self.spec_text(),
    {
        let mut s = "limit ".to_owned();
        s.append(usize_to_string(self.limit).as_str());
        match self.offset {
            Some(v) => {
                s.append(" offset ");
                s.append(usize_to_string(v).as_str());
            },
            None => {},
        }
        assert(s@ =~= self.spec_text());
        s
    }
}

/// One ordering key: ascending, descending, or no ordering at all (such an
/// entry is skipped).
#[derive(Debug, Clone)]
pub enum OrderBy {
    Asc(String),
    Desc(String),
    Unordered,
}

/// The ordering texts: `key asc` / `key desc`, with unordered entries
/// dropped.
pub open spec fn spec_orders(orders: Seq<OrderBy>) -> Seq<Seq<char>>
    decreases orders.len(),
{
    if orders.len() == 0 {
        Seq::empty()
    } else {
        let rest = spec_orders(orders.drop_first());
        match orders[0] {
            OrderBy::Asc(k) => seq![k@ + " asc"@] + rest,
            OrderBy::Desc(k) => seq![k@ + " desc"@] + rest,
            OrderBy::Unordered => rest,
        }
    }
}

/// Renders ordering keys to their texts, dropping unordered entries.
pub fn order_texts(orders: Vec<OrderBy>) -> (r: Vec<String>)
    ensures
        r@.map_values(|s: String| s@) == spec_orders(orders@),
    decreases orders@.len(),
{
    let mut orders = orders;
    if orders.len() == 0 {
        let r: Vec<String> = Vec::new();
        assert(r@.map_values(|s: String| s@) =~= spec_orders(orders@));
        r
    } else {
        let ghost o0 = orders@;
        let first = orders.remove(0);
        assert(first == o0[0]);
        assert(orders@ =~= o0.drop_first());
        let rest = order_texts(orders);
        match first {
            OrderBy::Asc(k) => {
                let mut s = k;
                s.append(" asc");
                let mut out = rest;
                out.insert(0, s);
                assert(out@.map_values(|t: String| t@) =~= spec_orders(o0));
                out
            },
            OrderBy::Desc(k) => {
                let mut s = k;
                s.append(" desc");
                let mut out = rest;
                out.insert(0, s);
                assert(out@.map_values(|t: String| t@) =~= spec_orders(o0));
                out
            },
            OrderBy::Unordered => {
                assert(rest@.map_values(|t: String| t@) =~= spec_orders(o0));
                rest
            },
        }
    }
}

/// A user-supplied statement piece. `build` hands back literal text and
/// values to bind, or nothing; what it hands back is pinned to
/// `spec_custom`, so statements holding custom pieces keep exact rendering
/// contracts.
pub trait CustomSqlSeg {
    spec fn spec_custom(&self) -> Option<Seq<SegOrValV>>;

    fn build(&self) -> (r: Option<Vec<SegOrVal>>)
        ensures
            match self.spec_custom() {
                Some(sv) => r matches Some(v) && v@.map_values(|x: SegOrVal| sov_view(x)) == sv,
                None => r is None,
            },
    ;
}

impl CustomSqlSeg for LimitOffset {
    open spec fn spec_custom(&self) -> Option<Seq<SegOrValV>> {
        Some(seq![SegOrValV::Str(self.spec_text())])
    }

    fn build(&self) -> (r: Option<Vec<SegOrVal>>) {
        let mut v: Vec<SegOrVal> = Vec::new();
        v.push(SegOrVal::Str(self.build_text()));
        assert(v@.map_values(|x: SegOrVal| sov_view(x)) =~= seq![SegOrValV::Str(self.spec_text())]);
        Some(v)
    }
}

/// One segment of a [`SqlBuilder`].
#[derive(Debug)]
pub enum SqlBuilderSeg {
    Where(Wheres),
    LimitOffset(LimitOffset),
    Comma(Vec<String>),
    SegOrVal(SegOrVal),
    RawOwned(String),
    Custom(Option<Vec<SegOrVal>>),
    Sub { alias: String, query: SqlBuilder },
}

/// An ordered list of statement segments.
#[derive(Debug)]
pub struct SqlBuilder {
    pub segs: Vec<SqlBuilderSeg>,
}

/// The spec-level view of one segment; `Sub` carries the sub-query's
/// segment views.
pub enum SegV {
    Where(Wheres),
    LimitOffset(LimitOffset),
    Comma(Seq<Seq<char>>),
    SegOrVal(SegOrValV),
    Raw(Seq<char>),
    Custom(Option<Seq<SegOrValV>>),
    Sub { alias: Seq<char>, query: Seq<SegV> },
}

/// The spec-level view of one segment.
pub open spec fn seg_view(s: SqlBuilderSeg) -> SegV
    decreases s,
{
    match s {
        SqlBuilderSeg::Where(w) => SegV::Where(w),
        SqlBuilderSeg::LimitOffset(lo) => SegV::LimitOffset(lo),
        SqlBuilderSeg::Comma(vs) => SegV::Comma(vs@.map_values(|t: String| t@)),
        SqlBuilderSeg::SegOrVal(sv) => SegV::SegOrVal(sov_view(sv)),
        SqlBuilderSeg::RawOwned(text) => SegV::Raw(text@),
        SqlBuilderSeg::Custom(c) => match c {
            Some(v) => SegV::Custom(Some(v@.map_values(|x: SegOrVal| sov_view(x)))),
            None => SegV::Custom(None),
        },
        SqlBuilderSeg::Sub { alias, query } => SegV::Sub {
            alias: alias@,
            query: segs_view(query.segs@),
        },
    }
}

/// The views of a segment list, in order.
pub open spec fn segs_view(segs: Seq<SqlBuilderSeg>) -> Seq<SegV>
    decreases segs,
{
    if segs.len() == 0 {
        Seq::empty()
    } else {
        seq![seg_view(segs[0])] + segs_view(segs.drop_first())
    }
}

/// The view of a whole builder.
pub open spec fn sb_view(b: SqlBuilder) -> Seq<SegV> {
    segs_view(b.segs@)
}

pub proof fn lemma_segs_view_len(segs: Seq<SqlBuilderSeg>)
    ensures
        segs_view(segs).len() == segs.len(),
        forall|i: int| 0 <= i < segs.len() ==> segs_view(segs)[i] == seg_view(segs[i]),
    decreases segs,
{
    if segs.len() > 0 {
        lemma_segs_view_len(segs.drop_first());
        assert forall|i: int| 0 <= i < segs.len() implies segs_view(segs)[i] == seg_view(
            segs[i],
        ) by {
            if i > 0 {
                assert(segs.drop_first()[i - 1] == segs[i]);
            }
        }
    }
}

pub proof fn lemma_segs_view_push(segs: Seq<SqlBuilderSeg>, x: SqlBuilderSeg)
    ensures
        segs_view(segs.push(x)) == segs_view(segs).push(seg_view(x)),
{
    lemma_segs_view_len(segs.push(x));
    lemma_segs_view_len(segs);
    assert(segs_view(segs.push(x)) =~= segs_view(segs).push(seg_view(x)));
}

pub proof fn lemma_segs_view_append(a: Seq<SqlBuilderSeg>, b: Seq<SqlBuilderSeg>)
    ensures
        segs_view(a + b) == segs_view(a) + segs_view(b),
{
    lemma_segs_view_len(a + b);
    lemma_segs_view_len(a);
    lemma_segs_view_len(b);
    assert forall|i: int| 0 <= i < (a + b).len() implies segs_view(a + b)[i] == (segs_view(a)
        + segs_view(b))[i] by {
        if i < a.len() {
            assert((a + b)[i] == a[i]);
        } else {
            assert((a + b)[i] == b[i - a.len()]);
        }
    }
    assert(segs_view(a + b) =~= segs_view(a) + segs_view(b));
}

/// How many placeholders one raw-piece view hands out.
pub open spec fn sov_v_count(sovs: Seq<SegOrValV>) -> nat
    decreases sovs.len(),
{
    if sovs.len() == 0 {
        0
    } else {
        (match sovs[0] {
            SegOrValV::Val(_) => 1 as nat,
            SegOrValV::Str(_) => 0 as nat,
        }) + sov_v_count(sovs.drop_first())
    }
}

/// How many placeholders rendering one segment hands out.
pub open spec fn seg_v_count(s: SegV) -> nat
    decreases s,
{
    match s {
        SegV::Where(w) => w.ph_count(),
        SegV::LimitOffset(_) => 0,
        SegV::Comma(_) => 0,
        SegV::SegOrVal(SegOrValV::Str(_)) => 0,
        SegV::SegOrVal(SegOrValV::Val(_)) => 1,
        SegV::Raw(_) => 0,
        SegV::Custom(c) => match c {
            Some(v) => sov_v_count(v),
            None => 0,
        },
        SegV::Sub { alias, query } => segs_v_count(query),
    }
}

/// How many placeholders rendering a segment list hands out.
pub open spec fn segs_v_count(segs: Seq<SegV>) -> nat
    decreases segs,
{
    if segs.len() == 0 {
        0
    } else {
        seg_v_count(segs[0]) + segs_v_count(segs.drop_first())
    }
}

/// A raw-piece view rendered in order: text stays, each value becomes the
/// next placeholder.
pub open spec fn spec_sov_v(sovs: Seq<SegOrValV>, p: PlaceHolderType) -> (Seq<char>, Seq<SqlValue>)
    decreases sovs,
{
    if sovs.len() == 0 {
        (Seq::empty(), Seq::empty())
    } else {
        match sovs[0] {
            SegOrValV::Str(s) => {
                let rest = spec_sov_v(sovs.drop_first(), p);
                (s + rest.0, rest.1)
            },
            SegOrValV::Val(v) => {
                let rest = spec_sov_v(sovs.drop_first(), p.ph_after(1));
                (p.ph_text_i(0) + rest.0, seq![v] + rest.1)
            },
        }
    }
}

/// The value-level and view-level raw-piece renderings agree.
pub proof fn lemma_sov_view(sovs: Seq<SegOrVal>, p: PlaceHolderType)
    ensures
        sov_count(sovs) == sov_v_count(sovs.map_values(|x: SegOrVal| sov_view(x))),
        Wheres::spec_sov(sovs, p).0 == spec_sov_v(sovs.map_values(|x: SegOrVal| sov_view(x)), p).0,
        Wheres::spec_sov(sovs, p).1 == spec_sov_v(sovs.map_values(|x: SegOrVal| sov_view(x)), p).1,
    decreases sovs.len(),
{
    let m = sovs.map_values(|x: SegOrVal| sov_view(x));
    if sovs.len() == 0 {
    } else {
        assert(m[0] == sov_view(sovs[0]));
        assert(sovs.drop_first().map_values(|x: SegOrVal| sov_view(x)) =~= m.drop_first());
        match sovs[0] {
            SegOrVal::Str(_) => {
                lemma_sov_view(sovs.drop_first(), p);
            },
            SegOrVal::Val(_) => {
                lemma_sov_view(sovs.drop_first(), p.ph_after(1));
                lemma_sov_view(sovs.drop_first(), p);
            },
        }
    }
}

/// What one segment contributes to the statement: its text and values.
/// A filter that renders to nothing, an empty custom piece, and an empty
/// sub-query contribute nothing.
pub open spec fn seg_piece(s: SegV, db_type: DbType, p: PlaceHolderType) -> (
    Seq<char>,
    Seq<SqlValue>,
)
    decreases s,
{
    match s {
        SegV::Where(w) => match w.spec_build(db_type, p) {
            Some(tv) => (" where "@ + tv.0, tv.1),
            None => (Seq::empty(), Seq::empty()),
        },
        SegV::LimitOffset(lo) => (lo.spec_text(), Seq::empty()),
        SegV::Comma(vs) => (spec_join(vs, ", "@), Seq::empty()),
        SegV::SegOrVal(SegOrValV::Str(text)) => (text + " "@, Seq::empty()),
        SegV::SegOrVal(SegOrValV::Val(v)) => (p.ph_text_i(0) + " "@, seq![v]),
        SegV::Raw(text) => (text, Seq::empty()),
        SegV::Custom(c) => match c {
            Some(v) => spec_sov_v(v, p),
            None => (Seq::empty(), Seq::empty()),
        },
        SegV::Sub { alias, query } => {
            if query.len() == 0 {
                (Seq::empty(), Seq::empty())
            } else {
                let inner = spec_sb(query, db_type, p, Seq::empty(), Seq::empty());
                (" ("@ + inner.0 + ") "@ + alias, inner.1)
            }
        },
    }
}

/// The rendering fold: each segment's contribution is appended to the text
/// so far, then a space is appended unless the text already ends with one.
pub open spec fn spec_sb(
    segs: Seq<SegV>,
    db_type: DbType,
    p: PlaceHolderType,
    acc_text: Seq<char>,
    acc_vals: Seq<SqlValue>,
) -> (Seq<char>, Seq<SqlValue>)
    decreases segs,
{
    if segs.len() == 0 {
        (acc_text, acc_vals)
    } else {
        let c = seg_piece(segs[0], db_type, p);
        let with = acc_text + c.0;
        let normal = if with.len() == 0 || with.last() != ' ' {
            with.push(' ')
        } else {
            with
        };
        spec_sb(
            segs.drop_first(),
            db_type,
            p.ph_after(seg_v_count(segs[0])),
            normal,
            acc_vals + c.1,
        )
    }
}

impl Default for SqlBuilder {
    fn default() -> (r: Self)
        ensures
            sb_view(r) == Seq::<SegV>::empty(),
    {
        let r = Self::new();
        assert(sb_view(r) =~= Seq::<SegV>::empty());
        r
    }
}

impl SqlBuilder {
    pub fn new() -> (r: Self)
        ensures
            sb_view(r) =~= Seq::<SegV>::empty(),
    {
        let segs: Vec<SqlBuilderSeg> = Vec::new();
        Self { segs }
    }

    /// A `select <fields> from <table> ` opening.
    pub fn read(table_name: &str, fields: &Vec<String>) -> (r: Self)
        ensures
            sb_view(r) == seq![
                SegV::Raw(
                    "select "@ + spec_join(fields@.map_values(|s: String| s@), ", "@) + " from "@
                        + table_name@ + " "@,
                ),
            ],
    {
        let mut s = "select ".to_owned();
        s.append(join_strings(fields, ", ").as_str());
        s.append(" from ");
        s.append(table_name);
        s.append(" ");
        let mut segs: Vec<SqlBuilderSeg> = Vec::new();
        segs.push(SqlBuilderSeg::RawOwned(s));
        let r = Self { segs };
        proof {
            lemma_segs_view_len(r.segs@);
            assert(sb_view(r) =~= seq![
                SegV::Raw(
                    "select "@ + spec_join(fields@.map_values(|t: String| t@), ", "@) + " from "@
                        + table_name@ + " "@,
                ),
            ]);
        }
        r
    }

    /// A `select * from <table> ` opening.
    pub fn read_all(table_name: &str) -> (r: Self)
        ensures
            sb_view(r) == seq![SegV::Raw("select * from "@ + table_name@ + " "@)],
    {
        let mut s = "select * from ".to_owned();
        s.append(table_name);
        s.append(" ");
        let mut segs: Vec<SqlBuilderSeg> = Vec::new();
        segs.push(SqlBuilderSeg::RawOwned(s));
        let r = Self { segs };
        proof {
            lemma_segs_view_len(r.segs@);
            assert(sb_view(r) =~= seq![SegV::Raw("select * from "@ + table_name@ + " "@)]);
        }
        r
    }

    /// Appends one value to bind.
    pub fn val(self, val: SqlValue) -> (r: Self)
        ensures
            sb_view(r) == sb_view(self).push(SegV::SegOrVal(SegOrValV::Val(val))),
    {
        let ghost segs0 = self.segs@;
        let mut segs = self.segs;
        segs.push(SqlBuilderSeg::SegOrVal(SegOrVal::Val(val)));
        proof {
            lemma_segs_view_push(segs0, SqlBuilderSeg::SegOrVal(SegOrVal::Val(val)));
        }
        Self { segs }
    }

    /// Appends literal text.
    pub fn seg(self, seg: String) -> (r: Self)
        ensures
            sb_view(r) == sb_view(self).push(SegV::SegOrVal(SegOrValV::Str(seg@))),
    {
        let ghost segs0 = self.segs@;
        let ghost x = SqlBuilderSeg::SegOrVal(SegOrVal::Str(seg));
        let mut segs = self.segs;
        segs.push(SqlBuilderSeg::SegOrVal(SegOrVal::Str(seg)));
        proof {
            lemma_segs_view_push(segs0, x);
        }
        Self { segs }
    }

    /// Applies the map to this builder and the value, if there is one.
    pub fn some_then<T, F: FnOnce(T, Self) -> Self>(self, cond: Option<T>, trans: F) -> (r: Self)
        requires
            cond matches Some(t) ==> call_requires(trans, (t, self)),
        ensures
            cond matches Some(t) ==> call_ensures(trans, (t, self), r),
            cond is None ==> r == self,
    {
        match cond {
            Some(t) => trans(t, self),
            None => self,
        }
    }

    /// Applies the map to this builder.
    pub fn transform<F: FnOnce(Self) -> Self>(self, trans: F) -> (r: Self)
        requires
            call_requires(trans, (self,)),
        ensures
            call_ensures(trans, (self,), r),
    {
        trans(self)
    }

    /// Appends a filter, rendered behind ` where ` if it renders at all.
    pub fn where_clause(self, wheres: Wheres) -> (r: Self)
        ensures
            sb_view(r) == sb_view(self).push(SegV::Where(wheres)),
    {
        let ghost segs0 = self.segs@;
        let ghost x = SqlBuilderSeg::Where(wheres);
        let mut segs = self.segs;
        segs.push(SqlBuilderSeg::Where(wheres));
        proof {
            lemma_segs_view_push(segs0, x);
        }
        Self { segs }
    }

    /// Appends the names joined with `, `.
    pub fn comma(self, values: Vec<String>) -> (r: Self)
        ensures
            sb_view(r) == sb_view(self).push(SegV::Comma(values@.map_values(|s: String| s@))),
    {
        let ghost segs0 = self.segs@;
        let ghost x = SqlBuilderSeg::Comma(values);
        let mut segs = self.segs;
        segs.push(SqlBuilderSeg::Comma(values));
        proof {
            lemma_segs_view_push(segs0, x);
        }
        Self { segs }
    }

    /// Appends a sub-query rendered as ` (<query>) <alias>`; an empty
    /// sub-query contributes nothing.
    pub fn sub(self, alias: String, query: SqlBuilder) -> (r: Self)
        ensures
            sb_view(r) == sb_view(self).push(
                SegV::Sub { alias: alias@, query: sb_view(query) },
            ),
    {
        let ghost segs0 = self.segs@;
        let ghost x = SqlBuilderSeg::Sub { alias, query };
        let mut segs = self.segs;
        segs.push(SqlBuilderSeg::Sub { alias, query });
        proof {
            lemma_segs_view_push(segs0, x);
        }
        Self { segs }
    }

    /// Appends a custom piece: what its `build` hands back is stored and
    /// later rendered like raw segment-or-value text.
    pub fn custom<T: CustomSqlSeg>(self, custom: T) -> (r: Self)
        ensures
            sb_view(r) == sb_view(self).push(SegV::Custom(custom.spec_custom())),
    {
        let built = custom.build();
        let ghost segs0 = self.segs@;
        let ghost x = SqlBuilderSeg::Custom(built);
        let mut segs = self.segs;
        segs.push(SqlBuilderSeg::Custom(built));
        proof {
            lemma_segs_view_push(segs0, x);
            assert(seg_view(x) == SegV::Custom(custom.spec_custom()));
        }
        Self { segs }
    }

    /// Appends `limit <n>`.
    pub fn limit(self, limit: usize) -> (r: Self)
        ensures
            sb_view(r) == sb_view(self).push(
                SegV::LimitOffset(LimitOffset { limit, offset: None }),
            ),
    {
        self.limit_offset(LimitOffset::new(limit))
    }

    /// Appends a limit with its optional offset.
    pub fn limit_offset(self, limit: LimitOffset) -> (r: Self)
        ensures
            sb_view(r) == sb_view(self).push(SegV::LimitOffset(limit)),
    {
        let ghost segs0 = self.segs@;
        let mut segs = self.segs;
        segs.push(SqlBuilderSeg::LimitOffset(limit));
        proof {
            lemma_segs_view_push(segs0, SqlBuilderSeg::LimitOffset(limit));
        }
        Self { segs }
    }

    /// Appends ` order by ` and the ordering keys joined with `, `
    /// (unordered entries dropped).
    pub fn order_by(self, orders: Vec<OrderBy>) -> (r: Self)
        ensures
            sb_view(r) == sb_view(self).push(SegV::SegOrVal(SegOrValV::Str(" order by "@))).push(
                SegV::SegOrVal(SegOrValV::Str(spec_join(spec_orders(orders@), ", "@))),
            ),
    {
        let texts = order_texts(orders);
        let joined = join_strings(&texts, ", ");
        self.seg(" order by ".to_owned()).seg(joined)
    }

    /// Appends every segment of the other builder, in order.
    pub fn merge(self, other: SqlBuilder) -> (r: Self)
        ensures
            sb_view(r) == sb_view(self) + sb_view(other),
    {
        let ghost a = self.segs@;
        let ghost b = other.segs@;
        let mut segs = self.segs;
        let mut osegs = other.segs;
        segs.append(&mut osegs);
        proof {
            lemma_segs_view_append(a, b);
        }
        Self { segs }
    }

    /// Appends one segment's contribution to the accumulators.
    #[verifier::rlimit(60)]
    fn render_one(
        seg: SqlBuilderSeg,
        db_type: DbType,
        pht: &mut PlaceHolderType,
        acc: &mut String,
        vals: &mut Vec<SqlValue>,
    )
        requires
            old(pht).ph_ok(seg_v_count(seg_view(seg))),
        ensures
            *final(pht) == old(pht).ph_after(seg_v_count(seg_view(seg))),
            final(acc)@ == old(acc)@ + seg_piece(seg_view(seg), db_type, *old(pht)).0,
            final(vals)@ == old(vals)@ + seg_piece(seg_view(seg), db_type, *old(pht)).1,
        decreases seg,
    {
        let ghost p0 = *pht;
        let ghost acc0 = acc@;
        let ghost vals0 = vals@;
        let ghost piece = seg_piece(seg_view(seg), db_type, p0);
        match seg {
            SqlBuilderSeg::Where(w) => {
                match w.build(db_type, pht) {
                    Some(ss) => {
                        acc.append(" where ");
                        acc.append(ss.seg.as_str());
                        let mut sv = ss.values;
                        vals.append(&mut sv);
                        assert(acc@ =~= acc0 + piece.0);
                        assert(vals@ =~= vals0 + piece.1);
                    },
                    None => {
                        assert(acc@ =~= acc0 + piece.0);
                        assert(vals@ =~= vals0 + piece.1);
                    },
                }
            },
            SqlBuilderSeg::LimitOffset(lo) => {
                acc.append(lo.build_text().as_str());
                assert(acc@ =~= acc0 + piece.0);
                assert(vals@ =~= vals0 + piece.1);
            },
            SqlBuilderSeg::Comma(vs) => {
                acc.append(join_strings(&vs, ", ").as_str());
                assert(acc@ =~= acc0 + piece.0);
                assert(vals@ =~= vals0 + piece.1);
            },
            SqlBuilderSeg::SegOrVal(sv) => {
                match sv {
                    SegOrVal::Str(text) => {
                        acc.append(text.as_str());
                        acc.append(" ");
                        assert(acc@ =~= acc0 + piece.0);
                        assert(vals@ =~= vals0 + piece.1);
                    },
                    SegOrVal::Val(v) => {
                        let ph = pht.next_ph();
                        acc.append(ph.as_str());
                        acc.append(" ");
                        vals.push(v);
                        assert(acc@ =~= acc0 + piece.0);
                        assert(vals@ =~= vals0 + piece.1);
                    },
                }
            },
            SqlBuilderSeg::RawOwned(text) => {
                acc.append(text.as_str());
                assert(acc@ =~= acc0 + piece.0);
                assert(vals@ =~= vals0 + piece.1);
            },
            SqlBuilderSeg::Custom(c) => {
                match c {
                    Some(v) => {
                        proof {
                            lemma_sov_view(v@, p0);
                        }
                        let (t, vv) = Wheres::build_sov(v, pht);
                        acc.append(t.as_str());
                        let mut vv = vv;
                        vals.append(&mut vv);
                        assert(acc@ =~= acc0 + piece.0);
                        assert(vals@ =~= vals0 + piece.1);
                    },
                    None => {
                        assert(acc@ =~= acc0 + piece.0);
                        assert(vals@ =~= vals0 + piece.1);
                    },
                }
            },
            SqlBuilderSeg::Sub { alias, query } => {
                if query.segs.len() == 0 {
                    assert(acc@ =~= acc0 + piece.0);
                    assert(vals@ =~= vals0 + piece.1);
                } else {
                    let inner_acc = String::new();
                    let inner_vals: Vec<SqlValue> = Vec::new();
                    assert(inner_acc@ =~= Seq::<char>::empty());
                    assert(inner_vals@ =~= Seq::<SqlValue>::empty());
                    let inner = Self::render_segs(query.segs, db_type, pht, inner_acc, inner_vals);
                    acc.append(" (");
                    acc.append(inner.0.as_str());
                    acc.append(") ");
                    acc.append(alias.as_str());
                    let mut iv = inner.1;
                    vals.append(&mut iv);
                    assert(acc@ =~= acc0 + piece.0);
                    assert(vals@ =~= vals0 + piece.1);
                }
            },
        }
    }

    /// Appends a space unless the text already ends with one.
    fn normalize_space(acc: &mut String)
        ensures
            final(acc)@ == (if old(acc)@.len() == 0 || old(acc)@.last() != ' ' {
                old(acc)@.push(' ')
            } else {
                old(acc)@
            }),
    {
        let l = acc.as_str().unicode_len();
        if l == 0 {
            acc.append(" ");
        } else {
            let last = acc.as_str().get_char(l - 1);
            if last != ' ' {
                acc.append(" ");
            }
        }
        proof {
            reveal_strlit(" ");
            assert(acc@ =~= (if old(acc)@.len() == 0 || old(acc)@.last() != ' ' {
                old(acc)@.push(' ')
            } else {
                old(acc)@
            }));
        }
    }

    /// Renders a segment list left to right, mirroring [`spec_sb`]: each
    /// segment's contribution, then the trailing-space normalization.
    fn render_segs(
        segs: Vec<SqlBuilderSeg>,
        db_type: DbType,
        pht: &mut PlaceHolderType,
        acc: String,
        vals: Vec<SqlValue>,
    ) -> (r: (String, Vec<SqlValue>))
        requires
            old(pht).ph_ok(segs_v_count(segs_view(segs@))),
        ensures
            *final(pht) == old(pht).ph_after(segs_v_count(segs_view(segs@))),
            r.0@ == spec_sb(segs_view(segs@), db_type, *old(pht), acc@, vals@).0,
            r.1@ == spec_sb(segs_view(segs@), db_type, *old(pht), acc@, vals@).1,
        decreases segs@,
    {
        let ghost p0 = *pht;
        let ghost segs0 = segs@;
        let ghost view0 = segs_view(segs0);
        let ghost acc0 = acc@;
        let ghost vals0 = vals@;
        let mut segs = segs;
        let mut acc = acc;
        let mut vals = vals;
        if segs.len() == 0 {
            (acc, vals)
        } else {
            proof {
                lemma_segs_view_len(segs0);
            }
            let first = segs.remove(0);
            assert(first == segs0[0]);
            assert(segs@ =~= segs0.drop_first());
            proof {
                assert(view0[0] == seg_view(first));
                assert(segs_view(segs@) =~= view0.drop_first());
                assert(decreases_to!(segs0 => segs0[0]));
                assert(segs0.drop_first() =~= segs0.subrange(1, segs0.len() as int));
                assert(decreases_to!(segs0 => segs0.subrange(1, segs0.len() as int)));
                p0.lemma_ph_after_compose(
                    seg_v_count(view0[0]),
                    segs_v_count(view0.drop_first()),
                );
            }
            Self::render_one(first, db_type, pht, &mut acc, &mut vals);
            Self::normalize_space(&mut acc);
            Self::render_segs(segs, db_type, pht, acc, vals)
        }
    }
}

impl IntoSqlSeg for SqlBuilder {
    open spec fn ph_need(&self) -> nat {
        segs_v_count(sb_view(*self))
    }

    open spec fn spec_err_kind(&self, db_type: DbType, p: PlaceHolderType) -> ChinSqlErrorKind {
        ChinSqlErrorKind::Builder
    }

    open spec fn spec_err_msg(&self, db_type: DbType, p: PlaceHolderType) -> Seq<char> {
        "segs is empty"@
    }

    open spec fn spec_seg(&self, db_type: DbType, p: PlaceHolderType) -> Option<(
        Seq<char>,
        Seq<SqlValue>,
    )> {
        if sb_view(*self).len() == 0 {
            None
        } else {
            Some(spec_sb(sb_view(*self), db_type, p, Seq::empty(), Seq::empty()))
        }
    }

    fn into_sql_seg2(self, db_type: DbType, pht: &mut PlaceHolderType) -> (r: Result<
        SqlSeg,
        ChinSqlError,
    >) {
        proof {
            lemma_segs_view_len(self.segs@);
        }
        if self.segs.len() == 0 {
            return Err(ChinSqlError::BuilderSqlError("segs is empty".to_owned()));
        }
        let acc = String::new();
        let vals: Vec<SqlValue> = Vec::new();
        assert(acc@ =~= Seq::<char>::empty());
        assert(vals@ =~= Seq::<SqlValue>::empty());
        let out = Self::render_segs(self.segs, db_type, pht, acc, vals);
        Ok(SqlSeg { seg: out.0, values: out.1 })
    }

    fn into_sql_seg(self, db_type: DbType) -> (r: Result<SqlSeg, ChinSqlError>) {
        match db_type {
            DbType::Sqlite => {
                let mut pht = PlaceHolderType::QuestionMark;
                self.into_sql_seg2(db_type, &mut pht)
            },
            DbType::Postgres => {
                let mut pht = PlaceHolderType::DollarNumber(0);
                self.into_sql_seg2(db_type, &mut pht)
            },
        }
    }
}

} // verus!
