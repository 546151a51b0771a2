//! Rendering of `ALTER TABLE` statements as dialect-correct SQL text.
//!
//! The action model (`AlterTable`, `AlterAction`, `AlterColumnAction`)
//! describes one or more alterations to a table; the `ToSql` trait renders
//! a value into a caller-owned string buffer, and every renderer's contract
//! pins the emitted text exactly.

pub mod alter_table;
pub mod column;
pub mod constraint;
pub mod dialect;
pub mod sql;
pub mod types;
pub mod util;

pub use alter_table::AlterAction;
pub use alter_table::AlterColumnAction;
pub use alter_table::AlterTable;
pub use column::Column;
pub use constraint::Constraint;
pub use dialect::Dialect;
pub use sql::ToSql;
pub use types::Type;
