use crate::dialect::Dialect;
use crate::sql::ToSql;
use vstd::prelude::*;
use vstd::string::StringExecFns;

verus! {

/// A column type, rendered by name per dialect. `Text` maps to Postgres's
/// `character varying`.
#[derive(Debug, Clone, Copy, PartialEq, Eq, Structural)]
pub enum Type {
    Boolean,
    SmallInt,
    Integer,
    BigInt,
    Text,
}

impl ToSql for Type {
    open spec fn sql(&self, dialect: Dialect) -> Seq<char> {
        match dialect {
            Dialect::Postgres => match self {
                Type::Boolean => "boolean"@,
                Type::SmallInt => "smallint"@,
                Type::Integer => "integer"@,
                Type::BigInt => "bigint"@,
                Type::Text => "character varying"@,
            },
        }
    }

    fn write_sql(&self, buf: &mut String, dialect: Dialect) {
        match dialect {
            Dialect::Postgres => match self {
                Type::Boolean => buf.append("boolean"),
                Type::SmallInt => buf.append("smallint"),
                Type::Integer => buf.append("integer"),
                Type::BigInt => buf.append("bigint"),
                Type::Text => buf.append("character varying"),
            },
        }
    }

    fn to_sql(&self, dialect: Dialect) -> (r: String) {
        let mut buf = String::new();
        self.write_sql(&mut buf, dialect);
        proof {
            assert(buf@ =~= self.sql(dialect));
        }
        buf
    }
}

} // verus!
