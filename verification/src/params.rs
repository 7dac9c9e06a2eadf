//! Parameter bindings: the named, typed values that travel beside a
//! statement.

use crate::ident::{hyphenated, uuid_text};
use crate::sql::{Column, SqlTypes};
use vstd::prelude::*;

verus! {

/// The value of one field of a record.
#[derive(Clone, Debug, PartialEq, Eq)]
pub enum Datum {
    /// A text.
    Text(String),
    /// A 32-bit integer.
    Integer(i32),
    /// A unique identifier.
    Uuid(u128),
}

/// A value as it travels to the database.
#[derive(Clone, Debug, PartialEq, Eq)]
pub enum Field {
    /// A string value.
    StringValue(String),
    /// A 64-bit integer value.
    LongValue(i64),
}

/// A hint on how the database is to read a string value.
#[derive(Clone, Copy, Debug, PartialEq, Eq, Structural)]
pub enum TypeHint {
    /// The string is the canonical text of a unique identifier.
    Uuid,
}

/// A parameter of a statement: the name of its placeholder, its value and,
/// where the value's kind does not tell its type, a hint.
#[derive(Clone, Debug, PartialEq, Eq)]
pub struct SqlParameter {
    pub name: String,
    pub value: Field,
    pub type_hint: Option<TypeHint>,
}

/// The value of a field, with texts as character sequences.
pub enum DatumView {
    Text(Seq<char>),
    Integer(i32),
    Uuid(u128),
}

impl View for Datum {
    type V = DatumView;

    open spec fn view(&self) -> DatumView {
        match self {
            Datum::Text(text) => DatumView::Text(text@),
            Datum::Integer(number) => DatumView::Integer(*number),
            Datum::Uuid(id) => DatumView::Uuid(*id),
        }
    }
}

/// The views of the values, in their order.
pub open spec fn datum_views(values: Seq<Datum>) -> Seq<DatumView> {
    Seq::new(values.len(), |i: int| values[i]@)
}

/// A wire value, with texts as character sequences.
pub enum FieldView {
    StringValue(Seq<char>),
    LongValue(int),
}

/// A parameter, with texts as character sequences.
pub struct SqlParameterView {
    pub name: Seq<char>,
    pub value: FieldView,
    pub type_hint: Option<TypeHint>,
}

impl View for Field {
    type V = FieldView;

    open spec fn view(&self) -> FieldView {
        match self {
            Field::StringValue(text) => FieldView::StringValue(text@),
            Field::LongValue(number) => FieldView::LongValue(*number as int),
        }
    }
}

impl View for SqlParameter {
    type V = SqlParameterView;

    open spec fn view(&self) -> SqlParameterView {
        SqlParameterView { name: self.name@, value: self.value@, type_hint: self.type_hint }
    }
}

/// The views of the parameters, in their order.
pub open spec fn parameter_views(params: Seq<SqlParameter>) -> Seq<SqlParameterView> {
    Seq::new(params.len(), |i: int| params[i]@)
}

/// The semantic type that a value belongs to.
pub open spec fn value_type(value: Datum) -> SqlTypes {
    match value {
        Datum::Text(_) => SqlTypes::String,
        Datum::Integer(_) => SqlTypes::Integer,
        Datum::Uuid(_) => SqlTypes::Uuid,
    }
}

/// How a value travels: a text as itself, a unique identifier as its
/// canonical text, an integer as a number.
pub open spec fn wire_value(value: Datum) -> FieldView {
    match value {
        Datum::Text(text) => FieldView::StringValue(text@),
        Datum::Uuid(id) => FieldView::StringValue(hyphenated(id)),
        Datum::Integer(number) => FieldView::LongValue(number as int),
    }
}

/// The hint that goes with values of a semantic type: unique identifiers
/// carry one, the others are told by the kind of their value.
pub open spec fn type_hint_of(sql_type: SqlTypes) -> Option<TypeHint> {
    match sql_type {
        SqlTypes::Uuid => Some(TypeHint::Uuid),
        _ => None,
    }
}

/// The parameter that binds `value` to the placeholder of `column`.
pub open spec fn binding(column: Column, value: Datum) -> SqlParameterView {
    SqlParameterView {
        name: column.name@,
        value: wire_value(value),
        type_hint: type_hint_of(column.sql_type),
    }
}

/// The values are those of a record of the columns: one for each column,
/// each of its column's semantic type.
pub open spec fn conforms(columns: Seq<Column>, values: Seq<Datum>) -> bool {
    &&& columns.len() == values.len()
    &&& forall|i: int| 0 <= i < columns.len() ==> value_type(#[trigger] values[i]) == columns[i].sql_type
}

/// One parameter for each column, in the columns' order.
pub open spec fn bindings(columns: Seq<Column>, values: Seq<Datum>) -> Seq<SqlParameterView> {
    Seq::new(columns.len(), |i: int| binding(columns[i], values[i]))
}

/// The parameters of a record answer the placeholders of its statements:
/// there is one for each field, it is called like the field, and only that
/// of a unique identifier carries a hint. A text travels as it is, whatever
/// it holds.
pub proof fn law_parameters_answer_placeholders(columns: Seq<Column>, values: Seq<Datum>)
    requires
        conforms(columns, values),
    ensures
        bindings(columns, values).len() == columns.len(),
        forall|i: int|
            0 <= i < columns.len() ==> {
                let parameter = #[trigger] bindings(columns, values)[i];
                &&& parameter.name == columns[i].name@
                &&& crate::sql::placeholders(columns)[i] == ":"@ + parameter.name
                &&& (parameter.type_hint is Some <==> columns[i].sql_type == SqlTypes::Uuid)
                &&& (values[i] matches Datum::Text(text) ==> parameter.value
                    == FieldView::StringValue(text@))
                &&& (values[i] matches Datum::Integer(number) ==> parameter.value
                    == FieldView::LongValue(number as int))
                &&& (values[i] matches Datum::Uuid(id) ==> parameter.value
                    == FieldView::StringValue(hyphenated(id)))
            },
{
}

impl Datum {
    /// The semantic type that the value belongs to.
    pub fn sql_type(&self) -> (sql_type: SqlTypes)
        ensures
            sql_type == value_type(*self),
    {
        match self {
            Datum::Text(_) => SqlTypes::String,
            Datum::Integer(_) => SqlTypes::Integer,
            Datum::Uuid(_) => SqlTypes::Uuid,
        }
    }
}

impl SqlTypes {
    /// The wire value of a field of this semantic type, or `None` where
    /// `value` is of another type.
    pub fn to_awsdata(&self, value: &Datum) -> (wire: Option<Field>)
        ensures
            value_type(*value) == *self ==> wire is Some && wire->0@ == wire_value(*value),
            value_type(*value) != *self ==> wire is None,
    {
        match (self, value) {
            (SqlTypes::String, Datum::Text(text)) => Some(Field::StringValue(text.clone())),
            (SqlTypes::Uuid, Datum::Uuid(id)) => Some(Field::StringValue(uuid_text(*id))),
            (SqlTypes::Integer, Datum::Integer(number)) => {
                let long: i64 = *number as i64;
                Some(Field::LongValue(long))
            },
            _ => None,
        }
    }

    /// The hint that parameters of this semantic type carry.
    pub fn to_typehint(&self) -> (hint: Option<TypeHint>)
        ensures
            hint == type_hint_of(*self),
    {
        match self {
            SqlTypes::Uuid => Some(TypeHint::Uuid),
            _ => None,
        }
    }
}

/// Generate the parameters of a record from its fields: one for each field,
/// in the fields' order, or `None` where the values are not a record of the
/// fields.
pub fn fields_as_params(fields: &Vec<Column>, values: &Vec<Datum>) -> (params: Option<
    Vec<SqlParameter>,
>)
    ensures
        conforms(fields@, values@) ==> params is Some && parameter_views(params->0@) == bindings(
            fields@,
            values@,
        ),
        !conforms(fields@, values@) ==> params is None,
{
    if fields.len() != values.len() {
        return None;
    }
    let mut fields_params: Vec<SqlParameter> = Vec::new();
    let mut i: usize = 0;
    while i < fields.len()
        invariant
            i <= fields.len(),
            fields.len() == values.len(),
            fields_params@.len() == i,
            forall|j: int| 0 <= j < i ==> value_type(#[trigger] values@[j]) == fields@[j].sql_type,
            forall|j: int|
                0 <= j < i ==> (#[trigger] fields_params@[j])@ == binding(fields@[j], values@[j]),
        decreases fields.len() - i,
    {
        let field = &fields[i];
        match field.sql_type.to_awsdata(&values[i]) {
            Some(value) => {
                let param = SqlParameter {
                    name: field.name.clone(),
                    value,
                    type_hint: field.sql_type.to_typehint(),
                };
                fields_params.push(param);
            },
            None => {
                return None;
            },
        }
        i += 1;
    }
    Some(fields_params)
}

} // verus!
