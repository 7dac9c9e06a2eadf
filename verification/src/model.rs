//! Record types and record instances: the schema that is generated from a
//! field list, the statements it gives, and the records that conform to it.

use crate::params::{
    bindings, conforms, fields_as_params, parameter_views, value_type, SqlParameter,
    Datum, SqlParameterView,
};
use crate::ports::HasUuid;
use crate::sql::{
    create_table_query, create_table_sql, delete_by_sql, drop_table_sql, insert_row_query,
    insert_sql, select_all_sql, select_by_sql, sql_type_of, update_row_query, update_sql,
    uuid_name, Column, FieldDecl, SchemaError, SqlTypes,
};
use crate::text::same_text;
use vstd::prelude::*;
use vstd::string::StringExecFns;

verus! {

/// Queryset for SQL implementations: the statements of one record type.
///
/// Every statement is the one that the table's name and the fields give; it
/// holds no value of any record.
pub trait QuerySet<T> {
    /// The name of the table: the name of the record type.
    spec fn table_name(&self) -> Seq<char>;

    /// The fields of the record type, in the order of their declaration.
    spec fn columns(&self) -> Seq<Column>;

    /// Table name.
    fn table(&self) -> (name: String)
        ensures
            name@ == self.table_name(),
    ;

    /// SQL query to create a new table.
    fn create_table(&self) -> (sql: String)
        ensures
            sql@ == create_table_sql(self.table_name(), self.columns()),
    ;

    /// SQL query to drop a table.
    fn drop_table(&self) -> (sql: String)
        ensures
            sql@ == drop_table_sql(self.table_name()),
    ;

    /// SQL query to delete an object by field (prepared).
    fn delete(&self, field_name: &str) -> (sql: String)
        ensures
            sql@ == delete_by_sql(self.table_name(), field_name@),
    ;

    /// SQL query to get an object by field (prepared).
    fn get(&self, field_name: &str) -> (sql: String)
        ensures
            sql@ == select_by_sql(self.table_name(), field_name@),
    ;

    /// SQL query to create an object (prepared).
    fn create(&self) -> (sql: String)
        ensures
            sql@ == insert_sql(self.table_name(), self.columns()),
    ;

    /// SQL query to update an object (prepared).
    fn update(&self) -> (sql: String)
        ensures
            sql@ == update_sql(self.table_name(), self.columns()),
    ;

    /// SQL query to list all items.
    fn list(&self) -> (sql: String)
        ensures
            sql@ == select_all_sql(self.table_name()),
    ;
}

/// Build the parameters of a statement from an item's fields.
pub trait GetFieldsAsParams {
    /// The parameters of the item: one for each field, in the fields' order.
    spec fn params(&self) -> Option<Seq<SqlParameterView>>;

    fn get_fields_as_params(&self) -> (params: Option<Vec<SqlParameter>>)
        ensures
            match params {
                Some(found) => self.params() == Some(parameter_views(found@)),
                None => self.params() is None,
            },
    ;
}

/// The fields that are unique identifiers, in their order.
pub open spec fn uuid_columns(columns: Seq<Column>) -> Seq<Column> {
    columns.filter(|c: Column| c.sql_type == SqlTypes::Uuid)
}

/// The fields make a record type: exactly one of them is a unique
/// identifier, and it is the field `uuid`.
pub open spec fn valid_columns(columns: Seq<Column>) -> bool {
    &&& uuid_columns(columns).len() == 1
    &&& uuid_columns(columns)[0].name@ == uuid_name()
}

/// The declared fields whose type is the unique identifier, in their order.
pub open spec fn uuid_fields(fields: Seq<FieldDecl>) -> Seq<FieldDecl> {
    fields.filter(|f: FieldDecl| sql_type_of(f.declared_type@) == Some(SqlTypes::Uuid))
}

/// The field at `i` is the first whose type is not supported.
pub open spec fn first_unsupported(fields: Seq<FieldDecl>, i: int) -> bool {
    &&& 0 <= i < fields.len()
    &&& sql_type_of(fields[i].declared_type@) is None
    &&& forall|j: int| 0 <= j < i ==> sql_type_of(#[trigger] fields[j].declared_type@) is Some
}

/// Every declared field has a supported type.
pub open spec fn all_supported(fields: Seq<FieldDecl>) -> bool {
    forall|i: int| 0 <= i < fields.len() ==> sql_type_of(#[trigger] fields[i].declared_type@) is Some
}

/// The columns are the declared fields, each with the semantic type that
/// its declared type stands for.
pub open spec fn resolves(fields: Seq<FieldDecl>, columns: Seq<Column>) -> bool {
    &&& columns.len() == fields.len()
    &&& forall|i: int|
        0 <= i < fields.len() ==> (#[trigger] columns[i]).name@ == fields[i].name@ && sql_type_of(
            fields[i].declared_type@,
        ) == Some(columns[i].sql_type)
}

/// A record type: the name of its table and its fields.
#[derive(Clone, Debug, PartialEq, Eq)]
pub struct Model {
    table: String,
    columns: Vec<Column>,
    uuid_index: usize,
}

impl Model {
    /// The name of the table.
    pub closed spec fn name(&self) -> Seq<char> {
        self.table@
    }

    /// The fields, in the order of their declaration.
    pub closed spec fn fields(&self) -> Seq<Column> {
        self.columns@
    }

    /// The position of the field `uuid` among the fields.
    pub closed spec fn uuid_position(&self) -> int {
        self.uuid_index as int
    }

    /// The record type is well formed: its fields make a record type, and
    /// the field at `uuid_position` is the unique identifier.
    pub open spec fn wf(&self) -> bool {
        &&& valid_columns(self.fields())
        &&& 0 <= self.uuid_position() < self.fields().len()
        &&& self.fields()[self.uuid_position()].sql_type == SqlTypes::Uuid
    }

    /// The number of fields.
    pub fn field_count(&self) -> (n: usize)
        ensures
            n == self.fields().len(),
    {
        self.columns.len()
    }

    /// The field at position `i`.
    pub fn field(&self, i: usize) -> (column: &Column)
        requires
            i < self.fields().len(),
        ensures
            *column == self.fields()[i as int],
    {
        &self.columns[i]
    }

    /// The position of the field `uuid`.
    pub fn uuid_field(&self) -> (i: usize)
        ensures
            i == self.uuid_position(),
    {
        self.uuid_index
    }
}

impl QuerySet<Record> for Model {
    open spec fn table_name(&self) -> Seq<char> {
        self.name()
    }

    open spec fn columns(&self) -> Seq<Column> {
        self.fields()
    }

    fn table(&self) -> (name: String) {
        self.table.clone()
    }

    fn create_table(&self) -> (sql: String) {
        create_table_query(&self.columns, self.table.as_str())
    }

    fn drop_table(&self) -> (sql: String) {
        let mut sql = String::from_str("DROP TABLE IF EXISTS ");
        sql.append(self.table.as_str());
        sql
    }

    fn delete(&self, field_name: &str) -> (sql: String) {
        let mut sql = String::from_str("DELETE FROM ");
        sql.append(self.table.as_str());
        sql.append(" WHERE ");
        sql.append(field_name);
        sql.append(" = :");
        sql.append(field_name);
        sql
    }

    fn get(&self, field_name: &str) -> (sql: String) {
        let mut sql = String::from_str("SELECT * FROM ");
        sql.append(self.table.as_str());
        sql.append(" WHERE ");
        sql.append(field_name);
        sql.append(" = :");
        sql.append(field_name);
        sql
    }

    fn create(&self) -> (sql: String) {
        insert_row_query(&self.columns, self.table.as_str())
    }

    fn update(&self) -> (sql: String) {
        update_row_query(&self.columns, self.table.as_str())
    }

    fn list(&self) -> (sql: String) {
        let mut sql = String::from_str("SELECT * FROM ");
        sql.append(self.table.as_str());
        sql
    }
}

/// A record instance: one value for each field of its record type.
#[derive(Clone, Debug, PartialEq, Eq)]
pub struct Record {
    columns: Vec<Column>,
    values: Vec<Datum>,
    uuid: u128,
}

/// A copy of the fields.
fn copy_columns(columns: &Vec<Column>) -> (copy: Vec<Column>)
    ensures
        copy@ == columns@,
{
    let mut copy: Vec<Column> = Vec::new();
    let mut i: usize = 0;
    while i < columns.len()
        invariant
            i <= columns.len(),
            copy@ == columns@.take(i as int),
        decreases columns.len() - i,
    {
        let column = Column { name: columns[i].name.clone(), sql_type: columns[i].sql_type };
        copy.push(column);
        i += 1;
    }
    copy
}

impl Record {
    /// The fields of the record's type.
    pub closed spec fn fields(&self) -> Seq<Column> {
        self.columns@
    }

    /// The values of the record, one for each field.
    pub closed spec fn values(&self) -> Seq<Datum> {
        self.values@
    }

    /// The record's unique identifier.
    pub closed spec fn id(&self) -> u128 {
        self.uuid
    }

    /// The record is well formed: its values are a record of its fields,
    /// its fields make a record type, and its identifier is the value of its
    /// field `uuid`.
    pub open spec fn wf(&self) -> bool {
        &&& valid_columns(self.fields())
        &&& conforms(self.fields(), self.values())
        &&& exists|i: int|
            0 <= i < self.fields().len() && (#[trigger] self.fields()[i]).sql_type
                == SqlTypes::Uuid && self.values()[i] == Datum::Uuid(self.id())
    }

    /// The record of type `model` with the given values, or `None` where
    /// they are not one value of the right type for each field.
    pub fn new(model: &Model, values: Vec<Datum>) -> (made: Option<Record>)
        requires
            model.wf(),
        ensures
            conforms(model.fields(), values@) <==> made is Some,
            made matches Some(record) ==> {
                &&& record.wf()
                &&& record.fields() == model.fields()
                &&& record.values() == values@
                &&& values@[model.uuid_position()] == Datum::Uuid(record.id())
            },
    {
        if model.columns.len() != values.len() {
            return None;
        }
        let mut i: usize = 0;
        while i < values.len()
            invariant
                i <= values.len(),
                model.columns@.len() == values@.len(),
                forall|j: int|
                    0 <= j < i ==> value_type(#[trigger] values@[j]) == model.columns@[j].sql_type,
            decreases values.len() - i,
        {
            if values[i].sql_type() != model.columns[i].sql_type {
                return None;
            }
            i += 1;
        }
        let uuid = match &values[model.uuid_index] {
            Datum::Uuid(id) => *id,
            _ => 0,
        };
        let record = Record { columns: copy_columns(&model.columns), values, uuid };
        Some(record)
    }

    /// The number of values.
    pub fn len(&self) -> (n: usize)
        ensures
            n == self.values().len(),
    {
        self.values.len()
    }

    /// The value at position `i`.
    pub fn value(&self, i: usize) -> (value: &Datum)
        requires
            i < self.values().len(),
        ensures
            *value == self.values()[i as int],
    {
        &self.values[i]
    }
}

impl HasUuid for Record {
    open spec fn uuid(&self) -> u128 {
        self.id()
    }

    fn get_uuid(&self) -> (id: u128) {
        self.uuid
    }
}

impl GetFieldsAsParams for Record {
    /// One parameter for each field, in the fields' order; `None` only for a
    /// record that is not well formed.
    open spec fn params(&self) -> Option<Seq<SqlParameterView>> {
        if conforms(self.fields(), self.values()) {
            Some(bindings(self.fields(), self.values()))
        } else {
            None
        }
    }

    fn get_fields_as_params(&self) -> (params: Option<Vec<SqlParameter>>) {
        fields_as_params(&self.columns, &self.values)
    }
}

/// What one more field adds to the unique identifiers among the columns.
proof fn lemma_uuid_columns_step(columns: Seq<Column>)
    requires
        columns.len() > 0,
    ensures
        uuid_columns(columns) == if columns.last().sql_type == SqlTypes::Uuid {
            uuid_columns(columns.drop_last()).push(columns.last())
        } else {
            uuid_columns(columns.drop_last())
        },
{
    reveal(Seq::filter);
}

/// What one more field adds to the unique identifiers among the declared
/// fields.
proof fn lemma_uuid_fields_step(fields: Seq<FieldDecl>)
    requires
        fields.len() > 0,
    ensures
        uuid_fields(fields) == if sql_type_of(fields.last().declared_type@) == Some(
            SqlTypes::Uuid,
        ) {
            uuid_fields(fields.drop_last()).push(fields.last())
        } else {
            uuid_fields(fields.drop_last())
        },
{
    reveal(Seq::filter);
}

/// Generates the schema of a record type from its name and its declared
/// fields.
///
/// Generation fails where a field has a type outside the supported set (the
/// first such field is reported), and else where the fields do not hold
/// exactly one unique identifier, or hold one that is not the field `uuid`.
pub fn struct_to_sql(struct_name: &str, fields: &Vec<FieldDecl>) -> (made: Result<
    Model,
    SchemaError,
>)
    ensures
        match made {
            Ok(model) => {
                &&& all_supported(fields@)
                &&& resolves(fields@, model.fields())
                &&& model.name() == struct_name@
                &&& model.wf()
            },
            Err(SchemaError::UnsupportedType(name)) => exists|i: int|
                first_unsupported(fields@, i) && name@ == (#[trigger] fields@[i]).declared_type@,
            Err(SchemaError::NoUuidField) => all_supported(fields@) && uuid_fields(fields@).len()
                == 0,
            Err(SchemaError::SeveralUuidFields) => all_supported(fields@) && uuid_fields(
                fields@,
            ).len() > 1,
            Err(SchemaError::UuidFieldName(name)) => {
                &&& all_supported(fields@)
                &&& uuid_fields(fields@).len() == 1
                &&& uuid_fields(fields@)[0].name@ != uuid_name()
                &&& name@ == uuid_fields(fields@)[0].name@
            },
        },
{
    let mut columns: Vec<Column> = Vec::new();
    let mut count: usize = 0;
    let mut first: usize = 0;
    let mut i: usize = 0;
    while i < fields.len()
        invariant
            i <= fields.len(),
            columns@.len() == i,
            resolves(fields@.take(i as int), columns@),
            count <= i,
            count == uuid_columns(columns@).len(),
            count == uuid_fields(fields@.take(i as int)).len(),
            count > 0 ==> first < i && uuid_columns(columns@)[0] == columns@[first as int]
                && uuid_fields(fields@.take(i as int))[0] == fields@[first as int]
                && columns@[first as int].sql_type == SqlTypes::Uuid,
        decreases fields.len() - i,
    {
        let field = &fields[i];
        let ghost before = columns@;
        proof {
            assert(fields@.take(i as int + 1).drop_last() == fields@.take(i as int));
            lemma_uuid_fields_step(fields@.take(i as int + 1));
        }
        match SqlTypes::from_field(field) {
            Ok(sql_type) => {
                let column = Column { name: field.name.clone(), sql_type };
                proof {
                    assert(before.push(column).drop_last() == before);
                    lemma_uuid_columns_step(before.push(column));
                }
                columns.push(column);
                if let SqlTypes::Uuid = sql_type {
                    if count == 0 {
                        first = i;
                    }
                    count += 1;
                }
            },
            Err(error) => {
                proof {
                    assert(first_unsupported(fields@, i as int)) by {
                        assert forall|j: int| 0 <= j < i implies sql_type_of(
                            #[trigger] fields@[j].declared_type@,
                        ) is Some by {
                            assert(columns@[j].name@ == fields@.take(i as int)[j].name@);
                        }
                    }
                }
                return Err(error);
            },
        }
        i += 1;
    }
    proof {
        assert(fields@.take(fields@.len() as int) == fields@);
        assert(all_supported(fields@)) by {
            assert forall|j: int| 0 <= j < fields@.len() implies sql_type_of(
                #[trigger] fields@[j].declared_type@,
            ) is Some by {
                assert(columns@[j].name@ == fields@[j].name@);
            }
        }
    }
    if count == 0 {
        Err(SchemaError::NoUuidField)
    } else if count > 1 {
        Err(SchemaError::SeveralUuidFields)
    } else if !same_text(columns[first].name.as_str(), "uuid") {
        Err(SchemaError::UuidFieldName(columns[first].name.clone()))
    } else {
        Ok(Model { table: String::from_str(struct_name), columns, uuid_index: first })
    }
}

} // verus!
