use crate::column::Column;
use crate::constraint::Constraint;
use crate::dialect::Dialect;
use crate::sql::ToSql;
use crate::types::Type;
use crate::util::push_quoted;
use crate::util::push_table_name;
use crate::util::spec_quoted;
use crate::util::spec_table_name;
use vstd::prelude::*;
use vstd::string::StringExecFns;

verus! {

/// One change to a single, named column.
#[derive(Debug, Clone, PartialEq, Eq)]
pub enum AlterColumnAction {
    SetType { typ: Type, using: Option<String> },
    SetNullable(bool),
    AddConstraint { name: String, constraint: Constraint },
}

/// Alter table action
#[derive(Debug, Clone, PartialEq, Eq)]
pub enum AlterAction {
    AddColumn { column: Column },
    AlterColumn { name: String, action: AlterColumnAction },
}

/// The identifier synthesized for a constraint added to column `col`:
/// `fk_<col>_<tag>`, where `tag` is the constraint's short descriptive tag.
pub open spec fn spec_constraint_id(col: Seq<char>, tag: Seq<char>) -> Seq<char> {
    "fk_"@ + col + "_"@ + tag
}

/// The text a column-level action renders to, following the
/// ` ALTER COLUMN "<name>"` prefix; `name` is the column's name, which the
/// default cast expression of `SetType` mentions.
pub open spec fn spec_column_action_sql(
    name: Seq<char>,
    action: AlterColumnAction,
    dialect: Dialect,
) -> Seq<char> {
    match action {
        AlterColumnAction::SetType { typ, using } => " TYPE "@ + typ.sql(dialect) + " USING "@ + (
        match using {
            Some(expr) => expr@,
            None => spec_quoted(name) + "::"@ + typ.sql(dialect),
        }),
        AlterColumnAction::SetNullable(nullable) => if nullable {
            " DROP NOT NULL"@
        } else {
            " SET NOT NULL"@
        },
        AlterColumnAction::AddConstraint { name: cname, constraint } => " ADD CONSTRAINT "@
            + spec_quoted(cname@) + " "@ + constraint.sql(dialect),
    }
}

impl AlterAction {
    pub fn set_nullable(name: String, nullable: bool) -> (r: Self)
        ensures
            r == (AlterAction::AlterColumn {
                name,
                action: AlterColumnAction::SetNullable(nullable),
            }),
    {
        Self::AlterColumn { name, action: AlterColumnAction::SetNullable(nullable) }
    }

    pub fn set_type(name: String, typ: Type) -> (r: Self)
        ensures
            r == (AlterAction::AlterColumn {
                name,
                action: AlterColumnAction::SetType { typ, using: None },
            }),
    {
        Self::AlterColumn { name, action: AlterColumnAction::SetType { typ, using: None } }
    }

    pub fn add_constraint(name: String, constraint: Constraint) -> (r: Self)
        ensures
            r matches AlterAction::AlterColumn { name: rname, action } && rname == name && (
            action matches AlterColumnAction::AddConstraint { name: cname, constraint: rc } && rc
                == constraint && cname@ == spec_constraint_id(name@, constraint.spec_name())),
    {
        let mut constraint_name = String::new();
        constraint_name.append("fk_");
        constraint_name.append(name.as_str());
        constraint_name.append("_");
        constraint_name.append(constraint.name());
        proof {
            assert(constraint_name@ =~= spec_constraint_id(name@, constraint.spec_name()));
        }
        Self::AlterColumn {
            name,
            action: AlterColumnAction::AddConstraint { name: constraint_name, constraint },
        }
    }
}

impl ToSql for AlterAction {
    open spec fn sql(&self, dialect: Dialect) -> Seq<char> {
        match self {
            AlterAction::AddColumn { column } => " ADD COLUMN "@ + column.sql(dialect),
            AlterAction::AlterColumn { name, action } => " ALTER COLUMN "@ + spec_quoted(name@)
                + spec_column_action_sql(name@, *action, dialect),
        }
    }

    fn write_sql(&self, buf: &mut String, dialect: Dialect) {
        match self {
            AlterAction::AddColumn { column } => {
                buf.append(" ADD COLUMN ");
                column.write_sql(buf, dialect);
                proof {
                    assert(buf@ =~= old(buf)@ + self.sql(dialect));
                }
            },
            AlterAction::AlterColumn { name, action } => {
                buf.append(" ALTER COLUMN ");
                push_quoted(buf, name.as_str());
                match action {
                    AlterColumnAction::SetType { typ, using } => {
                        buf.append(" TYPE ");
                        typ.write_sql(buf, dialect);
                        buf.append(" USING ");
                        match using {
                            Some(expr) => {
                                buf.append(expr.as_str());
                            },
                            None => {
                                push_quoted(buf, name.as_str());
                                buf.append("::");
                                typ.write_sql(buf, dialect);
                            },
                        }
                        proof {
                            assert(buf@ =~= old(buf)@ + self.sql(dialect));
                        }
                    },
                    AlterColumnAction::SetNullable(nullable) => {
                        if *nullable {
                            buf.append(" DROP NOT NULL");
                        } else {
                            buf.append(" SET NOT NULL");
                        }
                        proof {
                            assert(buf@ =~= old(buf)@ + self.sql(dialect));
                        }
                    },
                    AlterColumnAction::AddConstraint { name: cname, constraint } => {
                        buf.append(" ADD CONSTRAINT ");
                        push_quoted(buf, cname.as_str());
                        buf.append(" ");
                        constraint.write_sql(buf, dialect);
                        proof {
                            assert(buf@ =~= old(buf)@ + self.sql(dialect));
                        }
                    },
                }
            },
        }
    }

    fn to_sql(&self, dialect: Dialect) -> (r: String) {
        let mut buf = String::new();
        self.write_sql(&mut buf, dialect);
        proof {
            assert(buf@ =~= self.sql(dialect));
        }
        buf
    }
}

/// Changing a column's type with no `using` override renders the default
/// cast expression: the quoted column name, `::`, and the rendered type.
pub proof fn lemma_set_type_default_using(name: String, typ: Type, dialect: Dialect)
    ensures
        (AlterAction::AlterColumn {
            name,
            action: AlterColumnAction::SetType { typ, using: None },
        }).sql(dialect) == " ALTER COLUMN "@ + spec_quoted(name@) + " TYPE "@ + typ.sql(dialect)
            + " USING "@ + spec_quoted(name@) + "::"@ + typ.sql(dialect),
{
    assert((AlterAction::AlterColumn {
        name,
        action: AlterColumnAction::SetType { typ, using: None },
    }).sql(dialect) =~= " ALTER COLUMN "@ + spec_quoted(name@) + " TYPE "@ + typ.sql(dialect)
        + " USING "@ + spec_quoted(name@) + "::"@ + typ.sql(dialect));
}

/// Changing a column's type with a `using` override renders the supplied
/// expression verbatim after ` USING `: no quoting, no escaping.
pub proof fn lemma_set_type_using_override(name: String, typ: Type, expr: String, dialect: Dialect)
    ensures
        (AlterAction::AlterColumn {
            name,
            action: AlterColumnAction::SetType { typ, using: Some(expr) },
        }).sql(dialect) == " ALTER COLUMN "@ + spec_quoted(name@) + " TYPE "@ + typ.sql(dialect)
            + " USING "@ + expr@,
{
    assert((AlterAction::AlterColumn {
        name,
        action: AlterColumnAction::SetType { typ, using: Some(expr) },
    }).sql(dialect) =~= " ALTER COLUMN "@ + spec_quoted(name@) + " TYPE "@ + typ.sql(dialect)
        + " USING "@ + expr@);
}

/// Making a column nullable renders ` DROP NOT NULL` and enforcing not-null
/// renders ` SET NOT NULL`; the two renderings are never the same.
pub proof fn lemma_set_nullable_rendering(name: String, dialect: Dialect)
    ensures
        (AlterAction::AlterColumn {
            name,
            action: AlterColumnAction::SetNullable(true),
        }).sql(dialect) == " ALTER COLUMN "@ + spec_quoted(name@) + " DROP NOT NULL"@,
        (AlterAction::AlterColumn {
            name,
            action: AlterColumnAction::SetNullable(false),
        }).sql(dialect) == " ALTER COLUMN "@ + spec_quoted(name@) + " SET NOT NULL"@,
        (AlterAction::AlterColumn { name, action: AlterColumnAction::SetNullable(true) }).sql(
            dialect,
        ) != (AlterAction::AlterColumn {
            name,
            action: AlterColumnAction::SetNullable(false),
        }).sql(dialect),
{
    reveal_strlit(" DROP NOT NULL");
    reveal_strlit(" SET NOT NULL");
    assert((" ALTER COLUMN "@ + spec_quoted(name@) + " DROP NOT NULL"@).len() != (" ALTER COLUMN "@
        + spec_quoted(name@) + " SET NOT NULL"@).len());
}

/// Synthesizing a constraint identifier is deterministic: equal column names
/// and equal constraint tags always give the same identifier.
pub proof fn lemma_constraint_id_deterministic(
    col1: Seq<char>,
    tag1: Seq<char>,
    col2: Seq<char>,
    tag2: Seq<char>,
)
    requires
        col1 == col2,
        tag1 == tag2,
    ensures
        spec_constraint_id(col1, tag1) == spec_constraint_id(col2, tag2),
{
}

/// An `ALTER TABLE` statement: the table it targets, optionally qualified by
/// a schema, and its ordered list of actions.
#[derive(Debug, Clone, PartialEq, Eq)]
pub struct AlterTable {
    pub schema: Option<String>,
    pub name: String,
    pub actions: Vec<AlterAction>,
}

/// The text an action list renders to: each action's fragment in order,
/// separated by a bare `,` (every fragment itself begins with a space).
pub open spec fn spec_actions_sql(actions: Seq<AlterAction>, dialect: Dialect) -> Seq<char>
    decreases actions.len(),
{
    if actions.len() == 0 {
        Seq::empty()
    } else {
        spec_actions_sql(actions.drop_last(), dialect) + (if actions.len() > 1 {
            ","@
        } else {
            Seq::<char>::empty()
        }) + actions.last().sql(dialect)
    }
}

/// Taking one more action extends the rendered list by a `,` separator
/// (except before the first action) and that action's own fragment.
pub proof fn lemma_actions_sql_take_step(actions: Seq<AlterAction>, dialect: Dialect, i: int)
    requires
        0 <= i < actions.len(),
    ensures
        spec_actions_sql(actions.take(i + 1), dialect) == spec_actions_sql(
            actions.take(i),
            dialect,
        ) + (if i > 0 {
            ","@
        } else {
            Seq::<char>::empty()
        }) + actions[i].sql(dialect),
{
    assert(actions.take(i + 1).drop_last() =~= actions.take(i));
    assert(actions.take(i + 1).last() == actions[i]);
}

/// A statement with an empty action list renders as `ALTER TABLE ` and the
/// qualified table name alone: no trailing comma or other stray punctuation.
pub proof fn lemma_empty_actions_sql(statement: AlterTable, dialect: Dialect)
    requires
        statement.actions@.len() == 0,
    ensures
        statement.sql(dialect) == "ALTER TABLE "@ + spec_table_name(
            statement.schema,
            statement.name@,
        ),
{
    assert(statement.sql(dialect) =~= "ALTER TABLE "@ + spec_table_name(
        statement.schema,
        statement.name@,
    ));
}

impl ToSql for AlterTable {
    open spec fn sql(&self, dialect: Dialect) -> Seq<char> {
        "ALTER TABLE "@ + spec_table_name(self.schema, self.name@) + spec_actions_sql(
            self.actions@,
            dialect,
        )
    }

    fn write_sql(&self, buf: &mut String, dialect: Dialect) {
        buf.append("ALTER TABLE ");
        push_table_name(buf, &self.schema, self.name.as_str());
        let ghost prefix: Seq<char> = buf@;
        proof {
            assert(buf@ =~= prefix + spec_actions_sql(self.actions@.take(0), dialect));
        }
        let mut i: usize = 0;
        while i < self.actions.len()
            invariant
                i <= self.actions.len(),
                buf@ == prefix + spec_actions_sql(self.actions@.take(i as int), dialect),
            decreases self.actions.len() - i,
        {
            if i > 0 {
                buf.append(",");
            }
            let action = &self.actions[i];
            action.write_sql(buf, dialect);
            proof {
                lemma_actions_sql_take_step(self.actions@, dialect, i as int);
                assert(buf@ =~= prefix + spec_actions_sql(
                    self.actions@.take(i as int + 1),
                    dialect,
                ));
            }
            i = i + 1;
        }
        proof {
            assert(self.actions@.take(self.actions@.len() as int) =~= self.actions@);
            assert(buf@ =~= old(buf)@ + self.sql(dialect));
        }
    }

    fn to_sql(&self, dialect: Dialect) -> (r: String) {
        let mut buf = String::new();
        self.write_sql(&mut buf, dialect);
        proof {
            assert(buf@ =~= self.sql(dialect));
        }
        buf
    }
}

} // verus!
