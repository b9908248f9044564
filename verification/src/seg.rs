//! A rendered statement piece (text plus the values bound to its
//! placeholders), the statement layer's error type, and the trait every
//! statement form implements to render itself for a dialect.

use vstd::prelude::*;

verus! {

use crate::place_holder::{DbType, PlaceHolderType};
use crate::sql_value::SqlValue;

/// A piece of statement text together with the parameter values its
/// placeholders bind, in order.
#[derive(Debug, Clone)]
pub struct SqlSeg {
    pub seg: String,
    pub values: Vec<SqlValue>,
}

impl SqlSeg {
    pub fn of(seg: String, values: Vec<SqlValue>) -> (r: Self)
        ensures
            r.seg == seg,
            r.values == values,
    {
        Self { seg, values }
    }
}

/// What can go wrong while a statement is rendered.
#[derive(Debug, Clone, PartialEq)]
pub enum ChinSqlError {
    BuilderSqlError(String),
    TransformError(String),
    FilterBuildError(String),
}

/// The variants of [`ChinSqlError`], for contracts that pin which error a
/// failed rendering reports without pinning its message text.
#[derive(Clone, Copy, Debug, PartialEq, Eq, Structural)]
pub enum ChinSqlErrorKind {
    Builder,
    Transform,
    Filter,
}

/// Which variant an error value is.
pub open spec fn err_kind(e: ChinSqlError) -> ChinSqlErrorKind {
    match e {
        ChinSqlError::BuilderSqlError(_) => ChinSqlErrorKind::Builder,
        ChinSqlError::TransformError(_) => ChinSqlErrorKind::Transform,
        ChinSqlError::FilterBuildError(_) => ChinSqlErrorKind::Filter,
    }
}

/// The message text an error value carries.
pub open spec fn err_text(e: ChinSqlError) -> Seq<char> {
    match e {
        ChinSqlError::BuilderSqlError(m) => m@,
        ChinSqlError::TransformError(m) => m@,
        ChinSqlError::FilterBuildError(m) => m@,
    }
}

/// A statement form that can render itself to a [`SqlSeg`] for a dialect.
///
/// `ph_need` is how many placeholder markers rendering hands out,
/// `spec_seg` is the rendering itself (`None` where rendering fails, else
/// the text and the bound values), and `spec_err_kind` and `spec_err_msg`
/// are which error a failed rendering reports, variant and message text.
/// Every implementation's `into_sql_seg2` is pinned to those functions.
pub trait IntoSqlSeg: Sized {
    spec fn ph_need(&self) -> nat;

    spec fn spec_seg(&self, db_type: DbType, p: PlaceHolderType) -> Option<(
        Seq<char>,
        Seq<SqlValue>,
    )>;

    spec fn spec_err_kind(&self, db_type: DbType, p: PlaceHolderType) -> ChinSqlErrorKind;

    spec fn spec_err_msg(&self, db_type: DbType, p: PlaceHolderType) -> Seq<char>;

    fn into_sql_seg2(self, db_type: DbType, pht: &mut PlaceHolderType) -> (r: Result<
        SqlSeg,
        ChinSqlError,
    >)
        requires
            old(pht).ph_ok(self.ph_need()),
        ensures
            *final(pht) == old(pht).ph_after(self.ph_need()),
            match self.spec_seg(db_type, *old(pht)) {
                Some(tv) => r matches Ok(s) && s.seg@ == tv.0 && s.values@ == tv.1,
                None => r matches Err(e) && err_kind(e) == self.spec_err_kind(
                    db_type,
                    *old(pht),
                ) && err_text(e) == self.spec_err_msg(db_type, *old(pht)),
            },
    ;

    /// Renders with the placeholder style of the dialect: `?` for SQLite,
    /// `$1`, `$2`, … for Postgres.
    fn into_sql_seg(self, db_type: DbType) -> (r: Result<SqlSeg, ChinSqlError>)
        requires
            self.ph_need() <= usize::MAX,
        ensures
            match db_type {
                DbType::Sqlite => match self.spec_seg(db_type, PlaceHolderType::QuestionMark) {
                    Some(tv) => r matches Ok(s) && s.seg@ == tv.0 && s.values@ == tv.1,
                    None => r matches Err(e) && err_kind(e) == self.spec_err_kind(
                        db_type,
                        PlaceHolderType::QuestionMark,
                    ) && err_text(e) == self.spec_err_msg(
                        db_type,
                        PlaceHolderType::QuestionMark,
                    ),
                },
                DbType::Postgres => match self.spec_seg(
                    db_type,
                    PlaceHolderType::DollarNumber(0),
                ) {
                    Some(tv) => r matches Ok(s) && s.seg@ == tv.0 && s.values@ == tv.1,
                    None => r matches Err(e) && err_kind(e) == self.spec_err_kind(
                        db_type,
                        PlaceHolderType::DollarNumber(0),
                    ) && err_text(e) == self.spec_err_msg(
                        db_type,
                        PlaceHolderType::DollarNumber(0),
                    ),
                },
            },
    ;
}

impl IntoSqlSeg for SqlSeg {
    open spec fn ph_need(&self) -> nat {
        0
    }

    open spec fn spec_err_kind(&self, db_type: DbType, p: PlaceHolderType) -> ChinSqlErrorKind {
        ChinSqlErrorKind::Builder
    }

    open spec fn spec_err_msg(&self, db_type: DbType, p: PlaceHolderType) -> Seq<char> {
        Seq::empty()
    }

    open spec fn spec_seg(&self, db_type: DbType, p: PlaceHolderType) -> Option<(
        Seq<char>,
        Seq<SqlValue>,
    )> {
        Some((self.seg@, self.values@))
    }

    fn into_sql_seg2(self, db_type: DbType, pht: &mut PlaceHolderType) -> (r: Result<
        SqlSeg,
        ChinSqlError,
    >) {
        Ok(self)
    }

    fn into_sql_seg(self, db_type: DbType) -> (r: Result<SqlSeg, ChinSqlError>) {
        Ok(self)
    }
}

impl IntoSqlSeg for String {
    open spec fn ph_need(&self) -> nat {
        0
    }

    open spec fn spec_err_kind(&self, db_type: DbType, p: PlaceHolderType) -> ChinSqlErrorKind {
        ChinSqlErrorKind::Builder
    }

    open spec fn spec_err_msg(&self, db_type: DbType, p: PlaceHolderType) -> Seq<char> {
        Seq::empty()
    }

    open spec fn spec_seg(&self, db_type: DbType, p: PlaceHolderType) -> Option<(
        Seq<char>,
        Seq<SqlValue>,
    )> {
        Some((self@, Seq::empty()))
    }

    fn into_sql_seg2(self, db_type: DbType, pht: &mut PlaceHolderType) -> (r: Result<
        SqlSeg,
        ChinSqlError,
    >) {
        let values: Vec<SqlValue> = Vec::new();
        Ok(SqlSeg { seg: self, values })
    }

    fn into_sql_seg(self, db_type: DbType) -> (r: Result<SqlSeg, ChinSqlError>) {
        let values: Vec<SqlValue> = Vec::new();
        Ok(SqlSeg { seg: self, values })
    }
}

impl<'a> IntoSqlSeg for &'a str {
    open spec fn ph_need(&self) -> nat {
        0
    }

    open spec fn spec_err_kind(&self, db_type: DbType, p: PlaceHolderType) -> ChinSqlErrorKind {
        ChinSqlErrorKind::Builder
    }

    open spec fn spec_err_msg(&self, db_type: DbType, p: PlaceHolderType) -> Seq<char> {
        Seq::empty()
    }

    open spec fn spec_seg(&self, db_type: DbType, p: PlaceHolderType) -> Option<(
        Seq<char>,
        Seq<SqlValue>,
    )> {
        Some((self@, Seq::empty()))
    }

    fn into_sql_seg2(self, db_type: DbType, pht: &mut PlaceHolderType) -> (r: Result<
        SqlSeg,
        ChinSqlError,
    >) {
        let values: Vec<SqlValue> = Vec::new();
        Ok(SqlSeg { seg: self.to_owned(), values })
    }

    fn into_sql_seg(self, db_type: DbType) -> (r: Result<SqlSeg, ChinSqlError>) {
        let values: Vec<SqlValue> = Vec::new();
        Ok(SqlSeg { seg: self.to_owned(), values })
    }
}

} // verus!
