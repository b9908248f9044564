//! The insert-statement form: a table, the columns with their values, and
//! the conflict policy. Rendering is pinned to [`SqlInserter::spec_text`].

use vstd::prelude::*;

verus! {

use crate::place_holder::{collect_phs, DbType, PlaceHolderType};
use crate::seg::{ChinSqlError, ChinSqlErrorKind, IntoSqlSeg, SqlSeg};
use crate::sql_value::SqlValue;
use crate::text::{join_strings, spec_join};

/// What an insert does when it hits a conflicting row: error out (the
/// default), ignore the new row, or replace the old one. For Postgres,
/// `Replace` carries the conflict-target column list.
#[derive(Debug, Clone, PartialEq)]
pub enum OnConflict {
    Ignore,
    Replace(String),
    Abort,
}

impl Default for OnConflict {
    fn default() -> (r: Self)
        ensures
            r is Abort,
    {
        OnConflict::Abort
    }
}

/// An insert statement under construction.
#[derive(Debug)]
pub struct SqlInserter {
    pub table: String,
    pub fields: Vec<(String, SqlValue)>,
    pub extra: Vec<(String, SqlValue)>,
    pub on_conflict: OnConflict,
}

/// The column names of the field list.
pub open spec fn field_keys(fields: Seq<(String, SqlValue)>) -> Seq<Seq<char>> {
    fields.map_values(|f: (String, SqlValue)| f.0@)
}

/// The values of the field list.
pub open spec fn field_vals(fields: Seq<(String, SqlValue)>) -> Seq<SqlValue> {
    fields.map_values(|f: (String, SqlValue)| f.1)
}

/// The `ON CONFLICT … DO UPDATE SET` tail pairs from index `i` on:
/// `, key=ph` for each further column.
pub open spec fn spec_upsert_tail(keys: Seq<Seq<char>>, phs: Seq<Seq<char>>, i: nat) -> Seq<char>
    decreases keys.len() - i,
{
    if i >= keys.len() || i >= phs.len() {
        Seq::empty()
    } else {
        ", "@ + keys[i as int] + "="@ + phs[i as int] + spec_upsert_tail(keys, phs, i + 1)
    }
}

/// Splits a field list into its keys and its values.
fn split_fields(fields: Vec<(String, SqlValue)>) -> (r: (Vec<String>, Vec<SqlValue>))
    ensures
        r.0@.map_values(|s: String| s@) == field_keys(fields@),
        r.1@ == field_vals(fields@),
    decreases fields@.len(),
{
    let mut fields = fields;
    if fields.len() == 0 {
        let keys: Vec<String> = Vec::new();
        let vals: Vec<SqlValue> = Vec::new();
        assert(keys@.map_values(|s: String| s@) =~= field_keys(fields@));
        assert(vals@ =~= field_vals(fields@));
        (keys, vals)
    } else {
        let ghost f0 = fields@;
        let first = fields.remove(0);
        assert(first == f0[0]);
        assert(fields@ =~= f0.drop_first());
        let rest = split_fields(fields);
        let (mut keys, mut vals) = rest;
        let ghost rk = keys@;
        keys.insert(0, first.0);
        vals.insert(0, first.1);
        proof {
            let mk = keys@.map_values(|s: String| s@);
            let fk = field_keys(f0);
            assert(keys@.len() == rk.len() + 1);
            assert(rk.map_values(|s: String| s@).len() == rk.len());
            assert(field_keys(f0.drop_first()).len() == f0.drop_first().len());
            assert(rk.len() == f0.len() - 1);
            assert forall|j: int| 0 <= j < mk.len() implies mk[j] == fk[j] by {
                if j == 0 {
                    assert(keys@[0] == first.0);
                } else {
                    assert(keys@[j] == rk[j - 1]);
                    assert(rk.map_values(|s: String| s@)[j - 1] == field_keys(f0.drop_first())[j
                        - 1]);
                    assert(f0.drop_first()[j - 1] == f0[j]);
                }
            }
            assert(mk =~= fk);
            assert(vals@ =~= field_vals(f0));
        }
        (keys, vals)
    }
}

/// Renders the upsert tail pairs from index `i` on.
fn upsert_tail(keys: &Vec<String>, phs: &Vec<String>, i: usize) -> (r: String)
    requires
        i <= keys@.len(),
        i <= phs@.len(),
    ensures
        r@ == spec_upsert_tail(
            keys@.map_values(|s: String| s@),
            phs@.map_values(|s: String| s@),
            i as nat,
        ),
    decreases keys@.len() - i,
{
    let ghost mk = keys@.map_values(|s: String| s@);
    let ghost mp = phs@.map_values(|s: String| s@);
    if i >= keys.len() || i >= phs.len() {
        let r = String::new();
        assert(r@ =~= spec_upsert_tail(mk, mp, i as nat));
        r
    } else {
        let mut s = ", ".to_owned();
        s.append(keys[i].as_str());
        s.append("=");
        s.append(phs[i].as_str());
        s.append(upsert_tail(keys, phs, i + 1).as_str());
        assert(s@ =~= spec_upsert_tail(mk, mp, i as nat));
        s
    }
}

impl SqlInserter {
    pub fn new(table: String) -> (r: Self)
        ensures
            r.table == table,
            r.fields@.len() == 0,
            r.extra@.len() == 0,
            r.on_conflict is Abort,
    {
        SqlInserter {
            table,
            fields: Vec::new(),
            extra: Vec::new(),
            on_conflict: OnConflict::Abort,
        }
    }

    pub fn table_name(self, table: String) -> (r: Self)
        ensures
            r.table == table,
            r.fields == self.fields,
            r.extra == self.extra,
            r.on_conflict == self.on_conflict,
    {
        SqlInserter {
            table,
            fields: self.fields,
            extra: self.extra,
            on_conflict: self.on_conflict,
        }
    }

    /// Adds one column and its value.
    pub fn field(self, key: String, value: SqlValue) -> (r: Self)
        ensures
            r.table == self.table,
            r.fields@ == self.fields@.push((key, value)),
            r.extra == self.extra,
            r.on_conflict == self.on_conflict,
    {
        let mut fields = self.fields;
        fields.push((key, value));
        SqlInserter { table: self.table, fields, extra: self.extra, on_conflict: self.on_conflict }
    }

    /// Sets one extra column aside if the value is present. Extra columns
    /// are kept on the statement but take no part in rendering.
    pub fn raw(self, key: String, value: Option<SqlValue>) -> (r: Self)
        ensures
            r.table == self.table,
            r.fields == self.fields,
            value matches Some(v) ==> r.extra@ == self.extra@.push((key, v)),
            value is None ==> r.extra == self.extra,
            r.on_conflict == self.on_conflict,
    {
        let mut extra = self.extra;
        match value {
            Some(v) => {
                extra.push((key, v));
            },
            None => {},
        }
        SqlInserter { table: self.table, fields: self.fields, extra, on_conflict: self.on_conflict }
    }

    pub fn on_conflict(self, on_conflict: OnConflict) -> (r: Self)
        ensures
            r.table == self.table,
            r.fields == self.fields,
            r.extra == self.extra,
            r.on_conflict == on_conflict,
    {
        SqlInserter { table: self.table, fields: self.fields, extra: self.extra, on_conflict }
    }

    /// The full statement text from placeholder state `p`:
    /// `insert [conflict] into table(keys) values (markers)[upsert]`.
    pub open spec fn spec_text(self, db_type: DbType, p: PlaceHolderType) -> Seq<char> {
        let keys = field_keys(self.fields@);
        let phs = p.ph_texts(self.fields@.len());
        let head = "insert "@ + (if db_type is Sqlite {
            match self.on_conflict {
                OnConflict::Ignore => " or ignore "@,
                OnConflict::Replace(_) => " or replace "@,
                OnConflict::Abort => Seq::empty(),
            }
        } else {
            Seq::empty()
        });
        let mid = " into "@ + self.table@ + "("@ + spec_join(keys, ","@) + ") values ("@
            + spec_join(phs, ", "@) + ")"@;
        let tail = if db_type is Postgres {
            match self.on_conflict {
                OnConflict::Ignore => " ON CONFLICT DO NOTHING"@,
                OnConflict::Replace(cond) => " ON CONFLICT ("@ + cond@ + ") DO UPDATE SET "@
                    + keys[0] + " = "@ + phs[0] + spec_upsert_tail(keys, phs, 1),
                OnConflict::Abort => Seq::empty(),
            }
        } else {
            Seq::empty()
        };
        head + mid + tail
    }
}

impl IntoSqlSeg for SqlInserter {
    open spec fn ph_need(&self) -> nat {
        self.fields@.len()
    }

    open spec fn spec_err_kind(&self, db_type: DbType, p: PlaceHolderType) -> ChinSqlErrorKind {
        ChinSqlErrorKind::Builder
    }

    open spec fn spec_err_msg(&self, db_type: DbType, p: PlaceHolderType) -> Seq<char> {
        "insert files is empty"@
    }

    open spec fn spec_seg(&self, db_type: DbType, p: PlaceHolderType) -> Option<(
        Seq<char>,
        Seq<SqlValue>,
    )> {
        if self.fields@.len() == 0 {
            None
        } else {
            Some((self.spec_text(db_type, p), field_vals(self.fields@)))
        }
    }

    #[verifier::rlimit(60)]
    fn into_sql_seg2(self, db_type: DbType, pht: &mut PlaceHolderType) -> (r: Result<
        SqlSeg,
        ChinSqlError,
    >) {
        let ghost p0 = *pht;
        if self.fields.len() == 0 {
            return Err(ChinSqlError::BuilderSqlError("insert files is empty".to_owned()));
        }
        let ghost me = self;
        let n = self.fields.len();
        let (keys, vals) = split_fields(self.fields);
        let phs = collect_phs(pht, n);
        let mut sql = "insert ".to_owned();
        match db_type {
            DbType::Sqlite => {
                match &self.on_conflict {
                    OnConflict::Ignore => sql.append(" or ignore "),
                    OnConflict::Replace(_) => sql.append(" or replace "),
                    OnConflict::Abort => {},
                }
            },
            DbType::Postgres => {},
        }
        sql.append(" into ");
        sql.append(self.table.as_str());
        sql.append("(");
        sql.append(join_strings(&keys, ",").as_str());
        sql.append(") values (");
        sql.append(join_strings(&phs, ", ").as_str());
        sql.append(")");
        match db_type {
            DbType::Postgres => {
                match &self.on_conflict {
                    OnConflict::Ignore => sql.append(" ON CONFLICT DO NOTHING"),
                    OnConflict::Replace(cond) => {
                        sql.append(" ON CONFLICT (");
                        sql.append(cond.as_str());
                        sql.append(") DO UPDATE SET ");
                        sql.append(keys[0].as_str());
                        sql.append(" = ");
                        sql.append(phs[0].as_str());
                        sql.append(upsert_tail(&keys, &phs, 1).as_str());
                    },
                    OnConflict::Abort => {},
                }
            },
            DbType::Sqlite => {},
        }
        assert(sql@ =~= me.spec_text(db_type, p0));
        Ok(SqlSeg { seg: sql, values: vals })
    }

    fn into_sql_seg(self, db_type: DbType) -> (r: Result<SqlSeg, ChinSqlError>) {
        match db_type {
            DbType::Sqlite => {
                let mut pht = PlaceHolderType::QuestionMark;
                self.into_sql_seg2(db_type, &mut pht)
            },
            DbType::Postgres => {
                let mut pht = PlaceHolderType::DollarNumber(0);
                self.into_sql_seg2(db_type, &mut pht)
            },
        }
    }
}

} // verus!
