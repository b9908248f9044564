//! The update-statement form: a table, the columns to set, and the filter
//! choosing the rows. Rendering is pinned to [`SqlUpdater::spec_text`];
//! an update whose filter renders to nothing is refused.

use vstd::prelude::*;

verus! {

use crate::place_holder::{collect_phs, DbType, PlaceHolderType};
use crate::seg::{ChinSqlError, ChinSqlErrorKind, IntoSqlSeg, SqlSeg};
use crate::sql_value::SqlValue;
use crate::text::{join_strings, spec_join};
use crate::wheres::Wheres;

/// An update statement under construction.
#[derive(Debug)]
pub struct SqlUpdater {
    pub table: String,
    pub setters: Vec<(String, SqlValue)>,
    pub wheres: Wheres,
}

/// The `` key = marker `` texts of the setter list.
pub open spec fn setter_texts(setters: Seq<(String, SqlValue)>, p: PlaceHolderType) -> Seq<
    Seq<char>,
> {
    Seq::new(setters.len(), |i: int| " "@ + setters[i].0@ + " = "@ + p.ph_text_i(i as nat) + " "@)
}

/// The values of the setter list.
pub open spec fn setter_vals(setters: Seq<(String, SqlValue)>) -> Seq<SqlValue> {
    setters.map_values(|f: (String, SqlValue)| f.1)
}

/// Renders the setter list: each entry becomes `` key = marker ``, and the
/// values are kept in order.
#[verifier::rlimit(60)]
fn render_setters(setters: Vec<(String, SqlValue)>, pht: &mut PlaceHolderType) -> (r: (
    Vec<String>,
    Vec<SqlValue>,
))
    requires
        old(pht).ph_ok(setters@.len()),
    ensures
        *final(pht) == old(pht).ph_after(setters@.len()),
        r.0@.map_values(|s: String| s@) == setter_texts(setters@, *old(pht)),
        r.1@ == setter_vals(setters@),
{
    let ghost p0 = *pht;
    let ghost s0 = setters@;
    let mut setters = setters;
    let mut texts: Vec<String> = Vec::new();
    let mut vals: Vec<SqlValue> = Vec::new();
    let mut i: usize = 0;
    let n = setters.len();
    while i < n
        invariant
            i <= n,
            n == s0.len(),
            setters@ == s0.subrange(i as int, s0.len() as int),
            p0.ph_ok(s0.len()),
            *pht == p0.ph_after(i as nat),
            texts@.len() == i,
            forall|j: int| 0 <= j < i ==> texts@[j]@ == setter_texts(s0, p0)[j],
            vals@ == setter_vals(s0.subrange(0, i as int)),
        decreases n - i,
    {
        proof {
            p0.lemma_ph_after_compose(i as nat, 1);
        }
        let first = setters.remove(0);
        assert(first == s0[i as int]);
        assert(setters@ =~= s0.subrange(i as int + 1, s0.len() as int));
        let mut t = " ".to_owned();
        t.append(first.0.as_str());
        t.append(" = ");
        t.append(pht.next_ph().as_str());
        t.append(" ");
        assert(t@ =~= setter_texts(s0, p0)[i as int]);
        texts.push(t);
        vals.push(first.1);
        assert(vals@ =~= setter_vals(s0.subrange(0, i as int + 1)));
        i = i + 1;
    }
    assert(s0.subrange(0, s0.len() as int) =~= s0);
    assert(texts@.map_values(|s: String| s@) =~= setter_texts(s0, p0));
    (texts, vals)
}

impl SqlUpdater {
    pub fn new(table: String) -> (r: Self)
        ensures
            r.table == table,
            r.setters@.len() == 0,
            r.wheres matches Wheres::Conj(op, items) && op is And && items@.len() == 0,
    {
        SqlUpdater { table, setters: Vec::new(), wheres: Wheres::and(Vec::new()) }
    }

    /// Sets the column if the value is present.
    pub fn set_if_some(self, key: String, value: Option<SqlValue>) -> (r: Self)
        ensures
            r.table == self.table,
            r.wheres == self.wheres,
            value matches Some(v) ==> r.setters@ == self.setters@.push((key, v)),
            value is None ==> r.setters == self.setters,
    {
        let mut setters = self.setters;
        match value {
            Some(v) => {
                setters.push((key, v));
            },
            None => {},
        }
        SqlUpdater { table: self.table, setters, wheres: self.wheres }
    }

    /// Sets the column to the mapped value if one is present.
    pub fn trans_if_some<V, F: FnOnce(V) -> SqlValue>(
        self,
        key: String,
        value: Option<V>,
        trans: F,
    ) -> (r: Self)
        requires
            value matches Some(v) ==> call_requires(trans, (v,)),
        ensures
            r.table == self.table,
            r.wheres == self.wheres,
            value matches Some(v) ==> (exists|mapped: SqlValue|
                call_ensures(trans, (v,), mapped) && r.setters@ == self.setters@.push(
                    (key, mapped),
                )),
            value is None ==> r.setters == self.setters,
    {
        let mut setters = self.setters;
        match value {
            Some(v) => {
                setters.push((key, trans(v)));
            },
            None => {},
        }
        SqlUpdater { table: self.table, setters, wheres: self.wheres }
    }

    /// Sets the column.
    pub fn set(self, key: String, v: SqlValue) -> (r: Self)
        ensures
            r.table == self.table,
            r.wheres == self.wheres,
            r.setters@ == self.setters@.push((key, v)),
    {
        let mut setters = self.setters;
        setters.push((key, v));
        SqlUpdater { table: self.table, setters, wheres: self.wheres }
    }

    /// Chooses the rows the update touches.
    pub fn where_clause(self, wheres: Wheres) -> (r: Self)
        ensures
            r.table == self.table,
            r.setters == self.setters,
            r.wheres == wheres,
    {
        SqlUpdater { table: self.table, setters: self.setters, wheres }
    }

    /// The statement text from placeholder state `p`, defined when the
    /// filter renders to something.
    pub open spec fn spec_text(self, db_type: DbType, p: PlaceHolderType) -> Seq<char> {
        let set_part = " update "@ + self.table@ + " set "@ + spec_join(
            setter_texts(self.setters@, p),
            ", "@,
        );
        match self.wheres.spec_build(db_type, p.ph_after(self.setters@.len())) {
            Some(tv) => set_part + " where "@ + tv.0,
            None => set_part,
        }
    }
}

impl IntoSqlSeg for SqlUpdater {
    open spec fn ph_need(&self) -> nat {
        if self.setters@.len() == 0 {
            0
        } else {
            self.setters@.len() + self.wheres.ph_count()
        }
    }

    open spec fn spec_err_kind(&self, db_type: DbType, p: PlaceHolderType) -> ChinSqlErrorKind {
        if self.setters@.len() == 0 {
            ChinSqlErrorKind::Builder
        } else {
            ChinSqlErrorKind::Filter
        }
    }

    open spec fn spec_err_msg(&self, db_type: DbType, p: PlaceHolderType) -> Seq<char> {
        if self.setters@.len() == 0 {
            "update setters is empty"@
        } else {
            "filter_is_empty"@
        }
    }

    open spec fn spec_seg(&self, db_type: DbType, p: PlaceHolderType) -> Option<(
        Seq<char>,
        Seq<SqlValue>,
    )> {
        if self.setters@.len() == 0 {
            None
        } else {
            match self.wheres.spec_build(db_type, p.ph_after(self.setters@.len())) {
                Some(tv) => Some((self.spec_text(db_type, p), setter_vals(self.setters@) + tv.1)),
                None => None,
            }
        }
    }

    fn into_sql_seg2(self, db_type: DbType, pht: &mut PlaceHolderType) -> (r: Result<
        SqlSeg,
        ChinSqlError,
    >) {
        let ghost p0 = *pht;
        let ghost me = self;
        if self.setters.len() == 0 {
            return Err(ChinSqlError::BuilderSqlError("update setters is empty".to_owned()));
        }
        proof {
            p0.lemma_ph_after_compose(self.setters@.len(), self.wheres.ph_count());
        }
        let (texts, mut vals) = render_setters(self.setters, pht);
        let mut sb = " update ".to_owned();
        sb.append(self.table.as_str());
        sb.append(" set ");
        sb.append(join_strings(&texts, ", ").as_str());
        match self.wheres.build(db_type, pht) {
            Some(filters) => {
                sb.append(" where ");
                sb.append(filters.seg.as_str());
                let mut fv = filters.values;
                vals.append(&mut fv);
                assert(sb@ =~= me.spec_text(db_type, p0));
                Ok(SqlSeg { seg: sb, values: vals })
            },
            None => Err(ChinSqlError::FilterBuildError("filter_is_empty".to_owned())),
        }
    }

    fn into_sql_seg(self, db_type: DbType) -> (r: Result<SqlSeg, ChinSqlError>) {
        match db_type {
            DbType::Sqlite => {
                let mut pht = PlaceHolderType::QuestionMark;
                self.into_sql_seg2(db_type, &mut pht)
            },
            DbType::Postgres => {
                let mut pht = PlaceHolderType::DollarNumber(0);
                self.into_sql_seg2(db_type, &mut pht)
            },
        }
    }
}

} // verus!
