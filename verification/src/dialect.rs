use vstd::prelude::*;

verus! {

/// The target SQL dialect: it selects keyword spellings, type names and cast
/// syntax. Rendering is parameterized by a `Dialect` value throughout.
#[derive(Debug, Clone, Copy, PartialEq, Eq, Structural)]
pub enum Dialect {
    Postgres,
}

} // verus!
