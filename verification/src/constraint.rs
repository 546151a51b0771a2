use crate::dialect::Dialect;
use crate::sql::ToSql;
use crate::util::push_quoted;
use crate::util::push_quoted_list;
use crate::util::spec_quoted;
use crate::util::spec_quoted_list;
use vstd::prelude::*;
use vstd::string::StringExecFns;

verus! {

/// A constraint definition, as added to a column by an `ADD CONSTRAINT`
/// action. A foreign key references a table and a list of its columns.
#[derive(Debug, Clone, PartialEq, Eq)]
pub enum Constraint {
    ForeignKey { table: String, columns: Vec<String> },
}

impl Constraint {
    /// The constraint's short descriptive tag, used when synthesizing a
    /// constraint identifier: for a foreign key, the referenced table name.
    pub open spec fn spec_name(&self) -> Seq<char> {
        match self {
            Constraint::ForeignKey { table, .. } => table@,
        }
    }

    /// The constraint's short descriptive tag.
    pub fn name(&self) -> (r: &str)
        ensures
            r@ == self.spec_name(),
    {
        match self {
            Constraint::ForeignKey { table, .. } => table.as_str(),
        }
    }
}

impl ToSql for Constraint {
    open spec fn sql(&self, dialect: Dialect) -> Seq<char> {
        match self {
            Constraint::ForeignKey { table, columns } => "FOREIGN KEY REFERENCES "@ + spec_quoted(
                table@,
            ) + " ("@ + spec_quoted_list(columns@) + ")"@,
        }
    }

    fn write_sql(&self, buf: &mut String, dialect: Dialect) {
        match self {
            Constraint::ForeignKey { table, columns } => {
                buf.append("FOREIGN KEY REFERENCES ");
                push_quoted(buf, table.as_str());
                buf.append(" (");
                push_quoted_list(buf, columns);
                buf.append(")");
                proof {
                    assert(buf@ =~= old(buf)@ + self.sql(dialect));
                }
            },
        }
    }

    fn to_sql(&self, dialect: Dialect) -> (r: String) {
        let mut buf = String::new();
        self.write_sql(&mut buf, dialect);
        proof {
            assert(buf@ =~= self.sql(dialect));
        }
        buf
    }
}

} // verus!
