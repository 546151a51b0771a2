use alter_sql::{AlterAction, AlterColumnAction, AlterTable, Column, Constraint, Dialect, ToSql, Type};

#[test]
fn test_alter_action() {
    let alter = AlterAction::AlterColumn {
        name: "foo".to_string(),
        action: AlterColumnAction::SetType {
            typ: Type::Text,
            using: None,
        },
    };
    assert_eq!(
        alter.to_sql(Dialect::Postgres),
        r#" ALTER COLUMN "foo" TYPE character varying USING "foo"::character varying"#
    );

    let alter = AlterAction::AlterColumn {
        name: "foo".to_string(),
        action: AlterColumnAction::SetType {
            typ: Type::Text,
            using: Some("SUBSTRING(foo, 1, 3)".to_string()),
        },
    };
    assert_eq!(
        alter.to_sql(Dialect::Postgres),
        r#" ALTER COLUMN "foo" TYPE character varying USING SUBSTRING(foo, 1, 3)"#
    );
}

#[test]
fn set_type_builder_uses_default_cast() {
    let alter = AlterAction::set_type("age".to_string(), Type::BigInt);
    assert_eq!(
        alter.to_sql(Dialect::Postgres),
        r#" ALTER COLUMN "age" TYPE bigint USING "age"::bigint"#
    );
}

#[test]
fn set_type_override_is_verbatim() {
    let alter = AlterAction::AlterColumn {
        name: "age".to_string(),
        action: AlterColumnAction::SetType {
            typ: Type::Integer,
            using: Some(r#"COALESCE("age", 0)"#.to_string()),
        },
    };
    assert_eq!(
        alter.to_sql(Dialect::Postgres),
        r#" ALTER COLUMN "age" TYPE integer USING COALESCE("age", 0)"#
    );
}

#[test]
fn set_nullable_true_drops_not_null() {
    let alter = AlterAction::set_nullable("email".to_string(), true);
    assert_eq!(
        alter.to_sql(Dialect::Postgres),
        r#" ALTER COLUMN "email" DROP NOT NULL"#
    );
}

#[test]
fn set_nullable_false_sets_not_null() {
    let alter = AlterAction::set_nullable("email".to_string(), false);
    assert_eq!(
        alter.to_sql(Dialect::Postgres),
        r#" ALTER COLUMN "email" SET NOT NULL"#
    );
}

#[test]
fn add_constraint_synthesizes_identifier() {
    let constraint = Constraint::ForeignKey {
        table: "users".to_string(),
        columns: vec!["id".to_string()],
    };
    let alter = AlterAction::add_constraint("owner".to_string(), constraint);
    assert_eq!(
        alter.to_sql(Dialect::Postgres),
        r#" ALTER COLUMN "owner" ADD CONSTRAINT "fk_owner_users" FOREIGN KEY REFERENCES "users" ("id")"#
    );
}

#[test]
fn add_constraint_is_deterministic() {
    let make = || {
        AlterAction::add_constraint(
            "owner".to_string(),
            Constraint::ForeignKey {
                table: "users".to_string(),
                columns: vec!["id".to_string()],
            },
        )
    };
    assert_eq!(make(), make());
    assert_eq!(
        make().to_sql(Dialect::Postgres),
        make().to_sql(Dialect::Postgres)
    );
}

#[test]
fn constraint_name_is_referenced_table() {
    let constraint = Constraint::ForeignKey {
        table: "users".to_string(),
        columns: vec!["id".to_string()],
    };
    assert_eq!(constraint.name(), "users");
}

#[test]
fn constraint_renders_column_list_in_order() {
    let constraint = Constraint::ForeignKey {
        table: "orders".to_string(),
        columns: vec!["tenant".to_string(), "id".to_string()],
    };
    assert_eq!(
        constraint.to_sql(Dialect::Postgres),
        r#"FOREIGN KEY REFERENCES "orders" ("tenant", "id")"#
    );
}

#[test]
fn empty_action_list_renders_bare_statement() {
    let alter = AlterTable {
        schema: None,
        name: "users".to_string(),
        actions: vec![],
    };
    assert_eq!(alter.to_sql(Dialect::Postgres), r#"ALTER TABLE "users""#);
}

#[test]
fn schema_qualifies_the_table_name() {
    let alter = AlterTable {
        schema: Some("app".to_string()),
        name: "users".to_string(),
        actions: vec![AlterAction::set_nullable("email".to_string(), false)],
    };
    assert_eq!(
        alter.to_sql(Dialect::Postgres),
        r#"ALTER TABLE "app"."users" ALTER COLUMN "email" SET NOT NULL"#
    );
}

#[test]
fn absent_schema_omits_the_separator() {
    let alter = AlterTable {
        schema: None,
        name: "users".to_string(),
        actions: vec![AlterAction::set_nullable("email".to_string(), true)],
    };
    assert_eq!(
        alter.to_sql(Dialect::Postgres),
        r#"ALTER TABLE "users" ALTER COLUMN "email" DROP NOT NULL"#
    );
}

#[test]
fn actions_are_comma_separated_in_order() {
    let alter = AlterTable {
        schema: None,
        name: "users".to_string(),
        actions: vec![
            AlterAction::set_nullable("email".to_string(), false),
            AlterAction::set_type("age".to_string(), Type::SmallInt),
            AlterAction::AddColumn {
                column: Column {
                    name: "active".to_string(),
                    typ: Type::Boolean,
                    nullable: true,
                },
            },
        ],
    };
    assert_eq!(
        alter.to_sql(Dialect::Postgres),
        r#"ALTER TABLE "users" ALTER COLUMN "email" SET NOT NULL, ALTER COLUMN "age" TYPE smallint USING "age"::smallint, ADD COLUMN "active" boolean"#
    );
}

#[test]
fn add_column_renders_not_null_when_not_nullable() {
    let alter = AlterAction::AddColumn {
        column: Column {
            name: "id".to_string(),
            typ: Type::BigInt,
            nullable: false,
        },
    };
    assert_eq!(
        alter.to_sql(Dialect::Postgres),
        r#" ADD COLUMN "id" bigint NOT NULL"#
    );
}

#[test]
fn type_names_on_postgres() {
    assert_eq!(Type::Boolean.to_sql(Dialect::Postgres), "boolean");
    assert_eq!(Type::SmallInt.to_sql(Dialect::Postgres), "smallint");
    assert_eq!(Type::Integer.to_sql(Dialect::Postgres), "integer");
    assert_eq!(Type::BigInt.to_sql(Dialect::Postgres), "bigint");
    assert_eq!(Type::Text.to_sql(Dialect::Postgres), "character varying");
}

#[test]
fn write_sql_appends_to_the_buffer() {
    let mut buf = String::from("-- migration\n");
    let alter = AlterTable {
        schema: None,
        name: "users".to_string(),
        actions: vec![],
    };
    alter.write_sql(&mut buf, Dialect::Postgres);
    assert_eq!(buf, "-- migration\nALTER TABLE \"users\"");
}

#[test]
fn set_type_builds_the_expected_value() {
    let alter = AlterAction::set_type("age".to_string(), Type::Integer);
    assert_eq!(
        alter,
        AlterAction::AlterColumn {
            name: "age".to_string(),
            action: AlterColumnAction::SetType {
                typ: Type::Integer,
                using: None,
            },
        }
    );
}

#[test]
fn set_nullable_builds_the_expected_value() {
    let alter = AlterAction::set_nullable("age".to_string(), true);
    assert_eq!(
        alter,
        AlterAction::AlterColumn {
            name: "age".to_string(),
            action: AlterColumnAction::SetNullable(true),
        }
    );
}
