use crate::dialect::Dialect;
use vstd::prelude::*;

verus! {

/// A value that can be rendered as a fragment of SQL text for a target
/// dialect.
///
/// `sql` is the mathematical statement of the rendering; `write_sql` appends
/// exactly that text to the caller's buffer, and `to_sql` returns exactly
/// that text as a fresh string.
pub trait ToSql {
    /// The exact text this value renders to under `dialect`.
    spec fn sql(&self, dialect: Dialect) -> Seq<char>;

    /// Append this value's rendering to `buf`, leaving what was already
    /// there untouched.
    fn write_sql(&self, buf: &mut String, dialect: Dialect)
        ensures
            final(buf)@ == old(buf)@ + self.sql(dialect),
    ;

    /// This value's rendering as a fresh string.
    fn to_sql(&self, dialect: Dialect) -> (r: String)
        ensures
            r@ == self.sql(dialect),
    ;
}

} // verus!
