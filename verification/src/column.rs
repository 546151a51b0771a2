use crate::dialect::Dialect;
use crate::sql::ToSql;
use crate::types::Type;
use crate::util::push_quoted;
use crate::util::spec_quoted;
use vstd::prelude::*;
use vstd::string::StringExecFns;

verus! {

/// A fully-specified column definition, as used by an `ADD COLUMN` action.
#[derive(Debug, Clone, PartialEq, Eq)]
pub struct Column {
    pub name: String,
    pub typ: Type,
    pub nullable: bool,
}

impl ToSql for Column {
    open spec fn sql(&self, dialect: Dialect) -> Seq<char> {
        spec_quoted(self.name@) + " "@ + self.typ.sql(dialect) + (if self.nullable {
            Seq::<char>::empty()
        } else {
            " NOT NULL"@
        })
    }

    fn write_sql(&self, buf: &mut String, dialect: Dialect) {
        push_quoted(buf, self.name.as_str());
        buf.append(" ");
        self.typ.write_sql(buf, dialect);
        if !self.nullable {
            buf.append(" NOT NULL");
        }
        proof {
            assert(buf@ =~= old(buf)@ + self.sql(dialect));
        }
    }

    fn to_sql(&self, dialect: Dialect) -> (r: String) {
        let mut buf = String::new();
        self.write_sql(&mut buf, dialect);
        proof {
            assert(buf@ =~= self.sql(dialect));
        }
        buf
    }
}

} // verus!
