//! The closed set of scalar values a statement can bind, and the raw
//! segment-or-value alternation used by hand-written statement pieces.

use vstd::prelude::*;

verus! {

/// The logical column types the statement layer knows about.
///
/// `Varchar` carries the column's length bound.
#[derive(Clone, Copy, Debug, PartialEq, Eq, Structural)]
pub enum LogicFieldType {
    Bool,
    I8,
    I16,
    I32,
    I64,
    F64,
    Text,
    Blob,
    Timestamptz,
    Timestamp,
    Varchar(u16),
}

/// A timestamp with an explicit UTC offset, held as plain integers:
/// microseconds since the Unix epoch and the offset east of UTC in seconds.
#[derive(Clone, Copy, Debug, PartialEq, Eq, Structural)]
pub struct TimestampTz {
    pub epoch_micros: i64,
    pub offset_secs: i32,
}

/// One scalar statement parameter.
///
/// The statement layer never computes with these values; it only carries
/// them through to the driver, so each variant holds plain data. A floating
/// point value travels as its IEEE 754 bit pattern; timestamps travel as
/// epoch microseconds.
#[derive(Debug, Clone, PartialEq)]
pub enum SqlValue {
    I8(i8),
    I16(i16),
    I32(i32),
    I64(i64),
    Str(String),
    FixedOffset(TimestampTz),
    Utc(i64),
    Bool(bool),
    F64Bits(u64),
    Blob(Vec<u8>),
    Null(LogicFieldType),
    NullUnknown,
}

/// Either literal statement text or one value to bind in its place.
#[derive(Debug, Clone, PartialEq)]
pub enum SegOrVal {
    Str(String),
    Val(SqlValue),
}

} // verus!
