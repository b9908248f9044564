//! Table and column descriptions: a trait for things that name a table, a
//! plain column reference, and a typed column reference whose comparison
//! helpers build filters.

use vstd::prelude::*;

verus! {

use core::marker::PhantomData;

use crate::sql_builder::SqlBuilder;
use crate::sql_value::SqlValue;
use crate::str_type::Text;
use crate::wheres::{ILikeType, Wheres, spec_ilike_text};

/// Something that can stand in a `from` clause: its table expression and
/// the alias it goes by.
pub trait SqlTable {
    fn table_expr(&self) -> SqlBuilder;

    fn alias(&self) -> &'static str;
}

/// A column reference: the table alias it is read through, the column
/// name, and an optional output alias.
#[derive(Debug)]
pub struct SqlField {
    pub alias: Option<String>,
    pub table_alias: String,
    pub field_name: String,
}

/// A column reference that remembers the column's value type.
#[derive(Debug)]
pub struct SqlTypedField<T> {
    pub field: SqlField,
    pub value_type: PhantomData<T>,
}

impl<T> SqlTypedField<T> {
    pub fn new(table_alias: String, field_name: String) -> (r: Self)
        ensures
            r.field.alias is None,
            r.field.table_alias == table_alias,
            r.field.field_name == field_name,
    {
        Self {
            field: SqlField { alias: None, table_alias, field_name },
            value_type: PhantomData,
        }
    }

    pub fn with_alias(self, alias: String) -> (r: Self)
        ensures
            r.field.alias == Some(alias),
            r.field.table_alias == self.field.table_alias,
            r.field.field_name == self.field.field_name,
    {
        Self {
            field: SqlField {
                alias: Some(alias),
                table_alias: self.field.table_alias,
                field_name: self.field.field_name,
            },
            value_type: PhantomData,
        }
    }

    pub fn with_table_alias(self, alias: String) -> (r: Self)
        ensures
            r.field.alias == self.field.alias,
            r.field.table_alias == alias,
            r.field.field_name == self.field.field_name,
    {
        Self {
            field: SqlField {
                alias: self.field.alias,
                table_alias: alias,
                field_name: self.field.field_name,
            },
            value_type: PhantomData,
        }
    }

    /// The table-qualified column name this field filters under.
    pub open spec fn spec_twn(&self) -> Seq<char> {
        self.field.table_alias@ + "."@ + self.field.field_name@
    }

    /// The table-qualified column name: `table_alias.field_name`.
    pub fn twn(&self) -> (r: String)
        ensures
            r@ == self.spec_twn(),
    {
        let mut s = self.field.table_alias.clone();
        s.append(".");
        s.append(self.field.field_name.as_str());
        s
    }

    /// The plain column reference, with the type forgotten.
    pub fn erased(&self) -> (r: SqlField)
        ensures
            r.alias == self.field.alias,
            r.table_alias == self.field.table_alias,
            r.field_name == self.field.field_name,
    {
        SqlField {
            alias: match &self.field.alias {
                Some(a) => Some(a.clone()),
                None => None,
            },
            table_alias: self.field.table_alias.clone(),
            field_name: self.field.field_name.clone(),
        }
    }

    /// The filter `table.column = ?` bound to `v`.
    pub fn v_eq(&self, v: SqlValue) -> (r: Wheres)
        ensures
            r matches Wheres::Compare { key, operator, value } && key@ == self.spec_twn()
                && operator@ == "="@ && value == v,
    {
        Wheres::equal(self.twn(), v)
    }

    /// The filter `table.column in (…)` over the values.
    pub fn v_in(&self, vs: Vec<SqlValue>) -> (r: Wheres)
        ensures
            r matches Wheres::In(key, values) && key@ == self.spec_twn() && values == vs,
    {
        Wheres::in_list(self.twn(), vs)
    }
}

impl SqlTypedField<Text> {
    /// A case-insensitive pattern filter on this text column; an empty
    /// needle filters nothing.
    pub fn v_ilike(&self, v: &str, exact: ILikeType) -> (r: Wheres)
        ensures
            v@.len() == 0 ==> r is Nothing,
            v@.len() > 0 ==> (r matches Wheres::IIike { key, value } && key@ == self.spec_twn()
                && value@ == spec_ilike_text(exact, v@)),
    {
        Wheres::ilike(self.twn(), v, exact)
    }
}

impl SqlTypedField<i64> {
    /// The filter `table.column > ?`.
    pub fn v_gt(&self, v: i64) -> (r: Wheres)
        ensures
            r matches Wheres::Compare { key, operator, value } && key@ == self.spec_twn()
                && operator@ == ">"@ && value == SqlValue::I64(v),
    {
        Wheres::compare(self.twn(), ">".to_owned(), SqlValue::I64(v))
    }

    /// The filter `table.column < ?`.
    pub fn v_lt(&self, v: i64) -> (r: Wheres)
        ensures
            r matches Wheres::Compare { key, operator, value } && key@ == self.spec_twn()
                && operator@ == "<"@ && value == SqlValue::I64(v),
    {
        Wheres::compare(self.twn(), "<".to_owned(), SqlValue::I64(v))
    }

    /// The filter `table.column >= ?`.
    pub fn v_ge(&self, v: i64) -> (r: Wheres)
        ensures
            r matches Wheres::Compare { key, operator, value } && key@ == self.spec_twn()
                && operator@ == ">="@ && value == SqlValue::I64(v),
    {
        Wheres::compare(self.twn(), ">=".to_owned(), SqlValue::I64(v))
    }

    /// The filter `table.column <= ?`.
    pub fn v_le(&self, v: i64) -> (r: Wheres)
        ensures
            r matches Wheres::Compare { key, operator, value } && key@ == self.spec_twn()
                && operator@ == "<="@ && value == SqlValue::I64(v),
    {
        Wheres::compare(self.twn(), "<=".to_owned(), SqlValue::I64(v))
    }
}

} // verus!
