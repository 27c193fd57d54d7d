//! Classifying database errors.
use vstd::prelude::*;

verus! {

/// A database error as the library sees it: the driver's error code, where
/// the error came from the database, and the error's message.
#[derive(Clone, Debug, PartialEq, Eq)]
pub struct DbError {
    pub code: Option<String>,
    pub message: String,
}

/// SQLite's extended result code for a violated UNIQUE constraint.
pub open spec fn unique_violation_code() -> Seq<char> {
    seq!['2', '0', '6', '7']
}

/// Checks if the error is a unique constraint violation.
pub fn is_unique_err(err: &DbError) -> (b: bool)
    ensures
        b == (err.code matches Some(c) && c@ == unique_violation_code()),
{
    match &err.code {
        None => false,
        Some(c) => {
            let v = crate::text::chars_of(c.as_str());
            let ok = v.len() == 4 && v[0] == '2' && v[1] == '0' && v[2] == '6' && v[3] == '7';
            assert(ok ==> v@ =~= unique_violation_code());
            ok
        },
    }
}

} // verus!
