//! The pool's error type: one variant per failure class, so callers can
//! tell an infrastructure failure from a query failure.

use vstd::prelude::*;

verus! {

/// What a pool operation can fail with.
///
/// `CustomRusqliteError` carries a driver failure (a statement error,
/// recoverable at the call site); the verified code builds database
/// failures only with this variant. A channel failure — a closed queue or
/// a dropped reply channel — is built only as `ActorErrorWithDesc`, whose
/// first field is the channel error's rendered text and whose second names
/// the failed operation, so infrastructure failures are distinguishable
/// from query failures by variant. `RusqliteBuildError` and `LiteralError`
/// mark a reply whose shape did not match the request; `ActorError` is a
/// general actor failure kept for callers that fold the description in.
#[derive(Debug)]
pub enum ActorSqlError {
    BuilderSqlError,
    LiteralError(String),
    CustomRusqliteError(rusqlite::Error),
    RusqliteBuildError(String),
    ActorError(String),
    ActorErrorWithDesc(String, String),
}

} // verus!
