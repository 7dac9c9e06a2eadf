use sqlrepo::model::{struct_to_sql, GetFieldsAsParams, Model, QuerySet, Record};
use sqlrepo::params::{Field, TypeHint, Datum};
use sqlrepo::sql::{
    create_table_query, insert_row_query, update_row_query, Column, FieldDecl, SchemaError,
    SqlTypes,
};
use std::collections::HashMap;
use uuid::Uuid;

fn decl(name: &str, declared_type: &str) -> FieldDecl {
    FieldDecl { name: name.to_string(), declared_type: declared_type.to_string() }
}

fn base_model() -> Model {
    struct_to_sql(
        "BaseModel",
        &vec![decl("name", "String"), decl("id", "i32"), decl("uuid", "Uuid")],
    )
    .unwrap()
}

#[test]
fn test_base() {
    let queryset = base_model();
    let item = Record::new(
        &queryset,
        vec![
            Datum::Text("abc".to_string()),
            Datum::Integer(5),
            Datum::Uuid(Uuid::parse_str("0829b81a-f86e-4411-870a-ca16e6b73189").unwrap().as_u128()),
        ],
    )
    .unwrap();

    assert_eq!(*item.value(0), Datum::Text("abc".to_string()));
    assert_eq!(*item.value(1), Datum::Integer(5));

    assert_eq!(queryset.table(), "BaseModel".to_string());
    assert_eq!(
        queryset.create_table(),
        "CREATE TABLE IF NOT EXISTS BaseModel (name VARCHAR(255), id INTEGER, uuid UUID)"
            .to_string()
    );
    assert_eq!(
        queryset.drop_table(),
        "DROP TABLE IF EXISTS BaseModel".to_string()
    );
    assert_eq!(
        queryset.delete("id"),
        "DELETE FROM BaseModel WHERE id = :id".to_string()
    );
    assert_eq!(
        queryset.get("id"),
        "SELECT * FROM BaseModel WHERE id = :id".to_string()
    );
    assert_eq!(queryset.list(), r#"SELECT * FROM BaseModel"#.to_string());
    assert_eq!(
        queryset.create(),
        r#"INSERT INTO BaseModel (name, id, uuid) VALUES (:name, :id, :uuid)"#.to_string()
    );
    assert_eq!(
        queryset.update(),
        r#"UPDATE BaseModel SET name = :name, id = :id WHERE uuid = :uuid"#.to_string()
    );

    let mut ground = HashMap::new();
    ground.insert("name", "abc");
    ground.insert("id", "5");
    ground.insert("uuid", "0829b81a-f86e-4411-870a-ca16e6b73189");
    let fields_as_params = item.get_fields_as_params().unwrap();
    assert_eq!(fields_as_params.len(), 3);
    for param in fields_as_params {
        let name = param.name.as_str();
        match &param.value {
            Field::StringValue(s) => {
                assert_eq!(s.to_string(), *ground.get(name).unwrap())
            }
            Field::LongValue(i) => {
                let g: i64 = (*ground.get(name).unwrap()).parse::<i64>().unwrap();
                assert_eq!(*i, g);
            }
        };
        if name == "uuid" {
            assert_eq!(param.type_hint, Some(TypeHint::Uuid));
        } else {
            assert_eq!(param.type_hint, None);
        }
    }
}

#[test]
fn test_queryset() {
    let queryset =
        struct_to_sql("Item1", &vec![decl("uuid", "Uuid"), decl("field1", "i32")]).unwrap();

    assert_eq!(queryset.table(), "Item1".to_string());
    assert_eq!(
        queryset.drop_table(),
        "DROP TABLE IF EXISTS Item1".to_string()
    );
    assert_eq!(
        queryset.create_table(),
        "CREATE TABLE IF NOT EXISTS Item1 (uuid UUID, field1 INTEGER)".to_string()
    );
}

#[test]
fn schema_refuses_an_unsupported_type() {
    let made = struct_to_sql(
        "ModelUnsigned",
        &vec![decl("uuid", "Uuid"), decl("name", "String"), decl("id", "u32")],
    );
    assert_eq!(made, Err(SchemaError::UnsupportedType("u32".to_string())));
}

#[test]
fn schema_reports_the_first_unsupported_type_before_anything_else() {
    let made = struct_to_sql(
        "Broken",
        &vec![decl("a", "Uuid"), decl("b", "Uuid"), decl("c", "f64"), decl("d", "bool")],
    );
    assert_eq!(made, Err(SchemaError::UnsupportedType("f64".to_string())));
}

#[test]
fn schema_refuses_a_type_without_unique_identifier() {
    let made = struct_to_sql("NoKey", &vec![decl("name", "String"), decl("id", "i32")]);
    assert_eq!(made, Err(SchemaError::NoUuidField));
    assert_eq!(struct_to_sql("Empty", &vec![]), Err(SchemaError::NoUuidField));
}

#[test]
fn schema_refuses_several_unique_identifiers() {
    let made = struct_to_sql(
        "Card",
        &vec![decl("uuid", "Uuid"), decl("pan", "String"), decl("customer_uuid", "Uuid")],
    );
    assert_eq!(made, Err(SchemaError::SeveralUuidFields));
}

#[test]
fn schema_refuses_a_unique_identifier_under_another_name() {
    let made = struct_to_sql("Keyed", &vec![decl("key", "Uuid"), decl("uuid", "String")]);
    assert_eq!(made, Err(SchemaError::UuidFieldName("key".to_string())));
}

#[test]
fn sql_types_map_to_column_types() {
    assert_eq!(SqlTypes::from_field(&decl("a", "String")), Ok(SqlTypes::String));
    assert_eq!(SqlTypes::from_field(&decl("a", "i32")), Ok(SqlTypes::Integer));
    assert_eq!(SqlTypes::from_field(&decl("a", "Uuid")), Ok(SqlTypes::Uuid));
    assert_eq!(
        SqlTypes::from_field(&decl("a", "string")),
        Err(SchemaError::UnsupportedType("string".to_string()))
    );
    assert_eq!(SqlTypes::String.to_sql_syntax(), "VARCHAR(255)");
    assert_eq!(SqlTypes::Integer.to_sql_syntax(), "INTEGER");
    assert_eq!(SqlTypes::Uuid.to_sql_syntax(), "UUID");
    assert_eq!(SqlTypes::Uuid.to_typehint(), Some(TypeHint::Uuid));
    assert_eq!(SqlTypes::String.to_typehint(), None);
    assert_eq!(SqlTypes::Integer.to_typehint(), None);
}

#[test]
fn statements_of_a_type_with_the_key_alone() {
    let columns = vec![Column { name: "uuid".to_string(), sql_type: SqlTypes::Uuid }];
    assert_eq!(create_table_query(&columns, "K"), "CREATE TABLE IF NOT EXISTS K (uuid UUID)");
    assert_eq!(insert_row_query(&columns, "K"), "INSERT INTO K (uuid) VALUES (:uuid)");
    assert_eq!(update_row_query(&columns, "K"), "UPDATE K SET  WHERE uuid = :uuid");
}

#[test]
fn update_leaves_out_the_key_wherever_it_stands() {
    let columns = vec![
        Column { name: "a".to_string(), sql_type: SqlTypes::String },
        Column { name: "uuid".to_string(), sql_type: SqlTypes::Uuid },
        Column { name: "b".to_string(), sql_type: SqlTypes::Integer },
    ];
    assert_eq!(update_row_query(&columns, "T"), "UPDATE T SET a = :a, b = :b WHERE uuid = :uuid");
    assert_eq!(insert_row_query(&columns, "T"), "INSERT INTO T (a, uuid, b) VALUES (:a, :uuid, :b)");
}

#[test]
fn binder_binds_each_kind_of_value() {
    assert_eq!(
        SqlTypes::String.to_awsdata(&Datum::Text("it's; DROP".to_string())),
        Some(Field::StringValue("it's; DROP".to_string()))
    );
    assert_eq!(SqlTypes::Integer.to_awsdata(&Datum::Integer(-7)), Some(Field::LongValue(-7)));
    assert_eq!(
        SqlTypes::Integer.to_awsdata(&Datum::Integer(i32::MIN)),
        Some(Field::LongValue(-2147483648))
    );
    assert_eq!(
        SqlTypes::Uuid.to_awsdata(&Datum::Uuid(0x0829b81a_f86e_4411_870a_ca16e6b73189)),
        Some(Field::StringValue("0829b81a-f86e-4411-870a-ca16e6b73189".to_string()))
    );
    assert_eq!(SqlTypes::Uuid.to_awsdata(&Datum::Integer(1)), None);
    assert_eq!(SqlTypes::String.to_awsdata(&Datum::Uuid(1)), None);
}

#[test]
fn record_needs_one_value_of_the_right_type_for_each_field() {
    let model = base_model();
    assert_eq!(Record::new(&model, vec![]), None);
    assert_eq!(
        Record::new(
            &model,
            vec![Datum::Integer(5), Datum::Text("abc".to_string()), Datum::Uuid(1)]
        ),
        None
    );
    assert!(Record::new(
        &model,
        vec![Datum::Text("abc".to_string()), Datum::Integer(5), Datum::Uuid(1)]
    )
    .is_some());
}
