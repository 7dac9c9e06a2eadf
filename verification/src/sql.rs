//! The schema generator: from the field list of a record type to its table
//! definition and its parameterized statements.
//!
//! Every statement names its values by placeholders of the form `:field`; no
//! value of a record ever becomes part of a statement's text.

use crate::text::{join, joined, lemma_joined_three, lemma_texts_push, same_text, texts};
use vstd::prelude::*;
use vstd::string::StringExecFns;

verus! {

/// The semantic types that a field of a record can have.
#[derive(Clone, Copy, Debug, PartialEq, Eq, Structural)]
pub enum SqlTypes {
    /// Text.
    String,
    /// A unique identifier.
    Uuid,
    /// A 32-bit integer.
    Integer,
}

/// A field as it is declared: its name and the name of its type.
#[derive(Clone, Debug, PartialEq, Eq)]
pub struct FieldDecl {
    pub name: String,
    pub declared_type: String,
}

/// A field of a record type: its name and its semantic type.
#[derive(Clone, Debug, PartialEq, Eq)]
pub struct Column {
    pub name: String,
    pub sql_type: SqlTypes,
}

/// Why no schema can be generated from a field list.
#[derive(Clone, Debug, PartialEq, Eq)]
pub enum SchemaError {
    /// A field has a type outside the supported set; the type's name.
    UnsupportedType(String),
    /// No field is a unique identifier.
    NoUuidField,
    /// More than one field is a unique identifier.
    SeveralUuidFields,
    /// The one unique identifier is not the field `uuid`; the field's name.
    UuidFieldName(String),
}

/// The semantic type that a declared type name stands for, if any.
pub open spec fn sql_type_of(declared_type: Seq<char>) -> Option<SqlTypes> {
    if declared_type == "String"@ {
        Some(SqlTypes::String)
    } else if declared_type == "i32"@ {
        Some(SqlTypes::Integer)
    } else if declared_type == "Uuid"@ {
        Some(SqlTypes::Uuid)
    } else {
        None
    }
}

/// The column type by which SQL knows a semantic type.
pub open spec fn sql_syntax(sql_type: SqlTypes) -> Seq<char> {
    match sql_type {
        SqlTypes::String => "VARCHAR(255)"@,
        SqlTypes::Integer => "INTEGER"@,
        SqlTypes::Uuid => "UUID"@,
    }
}

impl SqlTypes {
    /// The semantic type of a declared field: `String` is text, `i32` an
    /// integer, `Uuid` a unique identifier. Any other type is refused.
    pub fn from_field(field: &FieldDecl) -> (found: Result<SqlTypes, SchemaError>)
        ensures
            match found {
                Ok(sql_type) => sql_type_of(field.declared_type@) == Some(sql_type),
                Err(SchemaError::UnsupportedType(name)) => sql_type_of(field.declared_type@) is None
                    && name@ == field.declared_type@,
                Err(_) => false,
            },
    {
        let declared_type = field.declared_type.as_str();
        if same_text(declared_type, "String") {
            Ok(SqlTypes::String)
        } else if same_text(declared_type, "i32") {
            Ok(SqlTypes::Integer)
        } else if same_text(declared_type, "Uuid") {
            Ok(SqlTypes::Uuid)
        } else {
            Err(SchemaError::UnsupportedType(field.declared_type.clone()))
        }
    }

    /// The column type by which SQL knows this semantic type.
    pub fn to_sql_syntax(&self) -> (syntax: &'static str)
        ensures
            syntax@ == sql_syntax(*self),
    {
        match self {
            SqlTypes::String => "VARCHAR(255)",
            SqlTypes::Integer => "INTEGER",
            SqlTypes::Uuid => "UUID",
        }
    }
}

/// The name of the primary key field.
pub open spec fn uuid_name() -> Seq<char> {
    "uuid"@
}

/// The names of the columns, in their order.
pub open spec fn column_names(columns: Seq<Column>) -> Seq<Seq<char>> {
    Seq::new(columns.len(), |i: int| columns[i].name@)
}

/// One definition for each column: its name, a space, its column type.
pub open spec fn column_definitions(columns: Seq<Column>) -> Seq<Seq<char>> {
    Seq::new(columns.len(), |i: int| columns[i].name@ + " "@ + sql_syntax(columns[i].sql_type))
}

/// One placeholder for each column: a colon, then the column's name.
pub open spec fn placeholders(columns: Seq<Column>) -> Seq<Seq<char>> {
    Seq::new(columns.len(), |i: int| ":"@ + columns[i].name@)
}

/// One assignment `name = :name` for each column but `uuid`, in their order.
pub open spec fn assignments(columns: Seq<Column>) -> Seq<Seq<char>> {
    columns.filter(|c: Column| c.name@ != uuid_name()).map_values(
        |c: Column| c.name@ + " = :"@ + c.name@,
    )
}

/// `CREATE TABLE IF NOT EXISTS <table> (<field> <type>, ...)`.
pub open spec fn create_table_sql(table: Seq<char>, columns: Seq<Column>) -> Seq<char> {
    "CREATE TABLE IF NOT EXISTS "@ + table + " ("@ + joined(column_definitions(columns), ", "@)
        + ")"@
}

/// `INSERT INTO <table> (<fields>) VALUES (:<fields>)`, over all the fields.
pub open spec fn insert_sql(table: Seq<char>, columns: Seq<Column>) -> Seq<char> {
    "INSERT INTO "@ + table + " ("@ + joined(column_names(columns), ", "@) + ") VALUES ("@ + joined(
        placeholders(columns),
        ", "@,
    ) + ")"@
}

/// `UPDATE <table> SET <field> = :<field>, ... WHERE uuid = :uuid`; the
/// field `uuid` is never assigned.
pub open spec fn update_sql(table: Seq<char>, columns: Seq<Column>) -> Seq<char> {
    "UPDATE "@ + table + " SET "@ + joined(assignments(columns), ", "@) + " WHERE uuid = :uuid"@
}

/// `DROP TABLE IF EXISTS <table>`.
pub open spec fn drop_table_sql(table: Seq<char>) -> Seq<char> {
    "DROP TABLE IF EXISTS "@ + table
}

/// `DELETE FROM <table> WHERE <field> = :<field>`.
pub open spec fn delete_by_sql(table: Seq<char>, field: Seq<char>) -> Seq<char> {
    "DELETE FROM "@ + table + " WHERE "@ + field + " = :"@ + field
}

/// `SELECT * FROM <table> WHERE <field> = :<field>`.
pub open spec fn select_by_sql(table: Seq<char>, field: Seq<char>) -> Seq<char> {
    "SELECT * FROM "@ + table + " WHERE "@ + field + " = :"@ + field
}

/// `SELECT * FROM <table>`.
pub open spec fn select_all_sql(table: Seq<char>) -> Seq<char> {
    "SELECT * FROM "@ + table
}

/// Generate the CREATE TABLE query.
pub fn create_table_query(fields: &Vec<Column>, struct_name: &str) -> (sql: String)
    ensures
        sql@ == create_table_sql(struct_name@, fields@),
{
    let mut fields_sql: Vec<String> = Vec::new();
    let mut i: usize = 0;
    while i < fields.len()
        invariant
            i <= fields.len(),
            texts(fields_sql@) == column_definitions(fields@).take(i as int),
        decreases fields.len() - i,
    {
        let field = &fields[i];
        let mut definition = field.name.clone();
        definition.append(" ");
        definition.append(field.sql_type.to_sql_syntax());
        proof {
            lemma_texts_push(fields_sql@, definition);
            assert(column_definitions(fields@).take(i as int + 1) =~= column_definitions(
                fields@,
            ).take(i as int).push(definition@));
        }
        fields_sql.push(definition);
        i += 1;
    }
    assert(column_definitions(fields@).take(fields@.len() as int) == column_definitions(fields@));
    let mut sql = String::from_str("CREATE TABLE IF NOT EXISTS ");
    sql.append(struct_name);
    sql.append(" (");
    sql.append(join(&fields_sql, ", ").as_str());
    sql.append(")");
    sql
}

/// Generate the INSERT ROW query.
pub fn insert_row_query(fields: &Vec<Column>, struct_name: &str) -> (sql: String)
    ensures
        sql@ == insert_sql(struct_name@, fields@),
{
    let mut fields_sql1: Vec<String> = Vec::new();
    let mut fields_sql2: Vec<String> = Vec::new();
    let mut i: usize = 0;
    while i < fields.len()
        invariant
            i <= fields.len(),
            texts(fields_sql1@) == column_names(fields@).take(i as int),
            texts(fields_sql2@) == placeholders(fields@).take(i as int),
        decreases fields.len() - i,
    {
        let field = &fields[i];
        let name = field.name.clone();
        let mut placeholder = String::from_str(":");
        placeholder.append(field.name.as_str());
        proof {
            lemma_texts_push(fields_sql1@, name);
            lemma_texts_push(fields_sql2@, placeholder);
            assert(column_names(fields@).take(i as int + 1) =~= column_names(fields@).take(
                i as int,
            ).push(name@));
            assert(placeholders(fields@).take(i as int + 1) =~= placeholders(fields@).take(
                i as int,
            ).push(placeholder@));
        }
        fields_sql1.push(name);
        fields_sql2.push(placeholder);
        i += 1;
    }
    assert(column_names(fields@).take(fields@.len() as int) == column_names(fields@));
    assert(placeholders(fields@).take(fields@.len() as int) == placeholders(fields@));
    let mut sql = String::from_str("INSERT INTO ");
    sql.append(struct_name);
    sql.append(" (");
    sql.append(join(&fields_sql1, ", ").as_str());
    sql.append(") VALUES (");
    sql.append(join(&fields_sql2, ", ").as_str());
    sql.append(")");
    sql
}

/// Generate the UPDATE ROW query.
pub fn update_row_query(fields: &Vec<Column>, struct_name: &str) -> (sql: String)
    ensures
        sql@ == update_sql(struct_name@, fields@),
{
    let mut fields_sql: Vec<String> = Vec::new();
    let mut i: usize = 0;
    while i < fields.len()
        invariant
            i <= fields.len(),
            texts(fields_sql@) == assignments(fields@.take(i as int)),
        decreases fields.len() - i,
    {
        let field = &fields[i];
        proof {
            lemma_assignments_step(fields@.take(i as int + 1));
            assert(fields@.take(i as int + 1).drop_last() == fields@.take(i as int));
        }
        if !same_text(field.name.as_str(), "uuid") {
            let mut assignment = field.name.clone();
            assignment.append(" = :");
            assignment.append(field.name.as_str());
            proof {
                lemma_texts_push(fields_sql@, assignment);
            }
            fields_sql.push(assignment);
        }
        i += 1;
    }
    assert(fields@.take(fields@.len() as int) == fields@);
    let mut sql = String::from_str("UPDATE ");
    sql.append(struct_name);
    sql.append(" SET ");
    sql.append(join(&fields_sql, ", ").as_str());
    sql.append(" WHERE uuid = :uuid");
    sql
}

/// The fields are `name`, a text, `id`, an integer, and `uuid`, a unique
/// identifier, in this order.
pub open spec fn is_name_id_uuid(columns: Seq<Column>) -> bool {
    &&& columns.len() == 3
    &&& columns[0].name@ == "name"@ && columns[0].sql_type == SqlTypes::String
    &&& columns[1].name@ == "id"@ && columns[1].sql_type == SqlTypes::Integer
    &&& columns[2].name@ == "uuid"@ && columns[2].sql_type == SqlTypes::Uuid
}

/// The statements of a record type with the fields `name`, `id` and `uuid`,
/// whatever the name of its table: every field is defined and inserted, in
/// the order of its declaration, and every field but `uuid` is assigned on
/// update.
pub proof fn law_statements_of_three_fields(table: Seq<char>, columns: Seq<Column>)
    requires
        is_name_id_uuid(columns),
    ensures
        create_table_sql(table, columns) == "CREATE TABLE IF NOT EXISTS "@ + table
            + " (name VARCHAR(255), id INTEGER, uuid UUID)"@,
        insert_sql(table, columns) == "INSERT INTO "@ + table
            + " (name, id, uuid) VALUES (:name, :id, :uuid)"@,
        update_sql(table, columns) == "UPDATE "@ + table
            + " SET name = :name, id = :id WHERE uuid = :uuid"@,
{
    reveal_strlit("name");
    reveal_strlit("id");
    reveal_strlit("uuid");
    reveal_strlit(" ");
    reveal_strlit(", ");
    reveal_strlit(":");
    reveal_strlit(" = :");
    reveal_strlit("VARCHAR(255)");
    reveal_strlit("INTEGER");
    reveal_strlit("UUID");
    reveal_strlit(" (");
    reveal_strlit(")");
    reveal_strlit(") VALUES (");
    reveal_strlit(" SET ");
    reveal_strlit(" WHERE uuid = :uuid");
    reveal_strlit(" (name VARCHAR(255), id INTEGER, uuid UUID)");
    reveal_strlit(" (name, id, uuid) VALUES (:name, :id, :uuid)");
    reveal_strlit(" SET name = :name, id = :id WHERE uuid = :uuid");
    let n = columns[0].name@;
    let i = columns[1].name@;
    let u = columns[2].name@;
    assert(column_definitions(columns) =~= seq![
        n + " "@ + "VARCHAR(255)"@,
        i + " "@ + "INTEGER"@,
        u + " "@ + "UUID"@,
    ]);
    lemma_joined_three(n + " "@ + "VARCHAR(255)"@, i + " "@ + "INTEGER"@, u + " "@ + "UUID"@, ", "@);
    assert(column_names(columns) =~= seq![n, i, u]);
    lemma_joined_three(n, i, u, ", "@);
    assert(placeholders(columns) =~= seq![":"@ + n, ":"@ + i, ":"@ + u]);
    lemma_joined_three(":"@ + n, ":"@ + i, ":"@ + u, ", "@);
    let c2 = columns.drop_last();
    let c1 = c2.drop_last();
    let c0 = c1.drop_last();
    lemma_assignments_step(columns);
    lemma_assignments_step(c2);
    lemma_assignments_step(c1);
    assert(assignments(c0) =~= Seq::<Seq<char>>::empty()) by {
        reveal(Seq::filter);
    }
    assert(n != "uuid"@) by {
        assert(n[0] == 'n' && "uuid"@[0] == 'u');
    }
    assert(assignments(columns) =~= seq![n + " = :"@ + n, i + " = :"@ + i]);
    lemma_joined_three(n + " = :"@ + n, i + " = :"@ + i, u, ", "@);
    assert(create_table_sql(table, columns) =~= "CREATE TABLE IF NOT EXISTS "@ + table
        + " (name VARCHAR(255), id INTEGER, uuid UUID)"@);
    assert(insert_sql(table, columns) =~= "INSERT INTO "@ + table
        + " (name, id, uuid) VALUES (:name, :id, :uuid)"@);
    assert(update_sql(table, columns) =~= "UPDATE "@ + table
        + " SET name = :name, id = :id WHERE uuid = :uuid"@);
}

/// The update statement never assigns the field `uuid`: each of its
/// assignments is that of a field of another name. The insert statement
/// names every field, `uuid` too.
pub proof fn law_update_never_assigns_uuid(columns: Seq<Column>)
    ensures
        forall|i: int|
            0 <= i < assignments(columns).len() ==> exists|j: int|
                0 <= j < columns.len() && columns[j].name@ != uuid_name()
                    && #[trigger] assignments(columns)[i] == columns[j].name@ + " = :"@
                    + columns[j].name@,
        column_names(columns).len() == columns.len(),
        placeholders(columns).len() == columns.len(),
        forall|j: int|
            0 <= j < columns.len() ==> #[trigger] column_names(columns)[j] == columns[j].name@
                && placeholders(columns)[j] == ":"@ + columns[j].name@,
    decreases columns.len(),
{
    if columns.len() > 0 {
        let before = columns.drop_last();
        law_update_never_assigns_uuid(before);
        lemma_assignments_step(columns);
        assert forall|i: int| 0 <= i < assignments(columns).len() implies exists|j: int|
            0 <= j < columns.len() && columns[j].name@ != uuid_name()
                && #[trigger] assignments(columns)[i] == columns[j].name@ + " = :"@
                + columns[j].name@ by {
            if i < assignments(before).len() {
                let j = choose|j: int|
                    0 <= j < before.len() && before[j].name@ != uuid_name() && assignments(
                        before,
                    )[i] == before[j].name@ + " = :"@ + before[j].name@;
                assert(columns[j] == before[j]);
            } else {
                assert(columns.last().name@ != uuid_name());
            }
        }
    }
}

/// The assignments of a field list are those of the list without its last
/// field, followed by the last field's own unless that field is `uuid`.
pub proof fn lemma_assignments_step(columns: Seq<Column>)
    requires
        columns.len() > 0,
    ensures
        assignments(columns) == if columns.last().name@ != uuid_name() {
            assignments(columns.drop_last()).push(
                columns.last().name@ + " = :"@ + columns.last().name@,
            )
        } else {
            assignments(columns.drop_last())
        },
{
    reveal(Seq::filter);
    let keep = |c: Column| c.name@ != uuid_name();
    let assign = |c: Column| c.name@ + " = :"@ + c.name@;
    if columns.last().name@ != uuid_name() {
        assert(columns.filter(keep).map_values(assign) =~= columns.drop_last().filter(
            keep,
        ).map_values(assign).push(assign(columns.last())));
    }
}

} // verus!
