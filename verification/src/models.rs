//! The domain entities of the bank: customers and cards.

use crate::ident::{
    hyphenated, is_random_uuid, parse_uuid, random_uuid, uuid_of_text, uuid_text,
};
use crate::model::{all_supported, resolves, struct_to_sql, uuid_fields, Model, Record};
use crate::params::{datum_views, Datum, DatumView};
use crate::ports::HasUuid;
use crate::PrimaryKey;
use crate::sql::{sql_type_of, FieldDecl, SqlTypes};
use crate::text::{decimal, decimal_text};
use rand::Rng;
use vstd::prelude::*;
use vstd::string::StringExecFns;

verus! {

/// Customer.
#[derive(Clone, Debug, PartialEq, Eq)]
pub struct Customer {
    pub uuid: u128,
    pub name: String,
    pub balance: i32,
}

/// Card.
#[derive(Clone, Debug, PartialEq, Eq)]
pub struct Card {
    pub uuid: u128,
    pub pan: String,
    pub customer_uuid: u128,
}

impl HasUuid for Customer {
    open spec fn uuid(&self) -> u128 {
        self.uuid
    }

    fn get_uuid(&self) -> (id: u128) {
        self.uuid
    }
}

impl HasUuid for Card {
    open spec fn uuid(&self) -> u128 {
        self.uuid
    }

    fn get_uuid(&self) -> (id: u128) {
        self.uuid
    }
}

impl PrimaryKey<u128> for Customer {
    open spec fn pk(&self) -> u128 {
        self.uuid
    }

    fn get_pk(&self) -> (key: u128) {
        self.uuid
    }
}

impl PrimaryKey<u128> for Card {
    open spec fn pk(&self) -> u128 {
        self.uuid
    }

    fn get_pk(&self) -> (key: u128) {
        self.uuid
    }
}

/// A declared field.
fn declare(name: &str, declared_type: &str) -> (field: FieldDecl)
    ensures
        field.name@ == name@,
        field.declared_type@ == declared_type@,
{
    FieldDecl { name: String::from_str(name), declared_type: String::from_str(declared_type) }
}

/// The values of a customer's fields, in the order of their declaration.
pub open spec fn customer_values(customer: Customer) -> Seq<DatumView> {
    seq![
        DatumView::Uuid(customer.uuid),
        DatumView::Text(customer.name@),
        DatumView::Integer(customer.balance),
    ]
}

/// The values are those of a customer: an identifier, a text, an integer.
pub open spec fn is_customer(values: Seq<DatumView>) -> bool {
    &&& values.len() == 3
    &&& values[0] is Uuid
    &&& values[1] is Text
    &&& values[2] is Integer
}

impl Customer {
    /// The name of the customers' table.
    pub fn table() -> (name: &'static str)
        ensures
            name@ == "Customer"@,
    {
        "Customer"
    }

    /// The fields of a customer as they are declared: `uuid`, `name` and
    /// `balance`.
    pub fn declared_fields() -> (fields: Vec<FieldDecl>)
        ensures
            fields@.len() == 3,
            fields@[0].name@ == "uuid"@ && fields@[0].declared_type@ == "Uuid"@,
            fields@[1].name@ == "name"@ && fields@[1].declared_type@ == "String"@,
            fields@[2].name@ == "balance"@ && fields@[2].declared_type@ == "i32"@,
    {
        vec![declare("uuid", "Uuid"), declare("name", "String"), declare("balance", "i32")]
    }

    /// The schema of the customers' table: the schema generator accepts the
    /// fields of a customer.
    pub fn model() -> (model: Model)
        ensures
            model.wf(),
            model.name() == "Customer"@,
            model.fields().len() == 3,
            model.fields()[0].name@ == "uuid"@ && model.fields()[0].sql_type == SqlTypes::Uuid,
            model.fields()[1].name@ == "name"@ && model.fields()[1].sql_type == SqlTypes::String,
            model.fields()[2].name@ == "balance"@ && model.fields()[2].sql_type
                == SqlTypes::Integer,
    {
        proof {
            lemma_declared_types();
        }
        model_of_three(Customer::table(), Customer::declared_fields())
    }

    /// The values of the customer's fields, in the order of their
    /// declaration.
    pub fn values(&self) -> (values: Vec<Datum>)
        ensures
            datum_views(values@) == customer_values(*self),
    {
        let values = vec![
            Datum::Uuid(self.uuid),
            Datum::Text(self.name.clone()),
            Datum::Integer(self.balance),
        ];
        values
    }

    /// The customer as a record of the customers' table.
    pub fn to_record(&self) -> (record: Record)
        ensures
            record.wf(),
            record.id() == self.uuid,
            datum_views(record.values()) == customer_values(*self),
    {
        let model = Customer::model();
        let values = self.values();
        proof {
            assert(datum_views(values@).len() == 3);
            assert(datum_views(values@)[0] == values@[0]@);
            assert(datum_views(values@)[1] == values@[1]@);
            assert(datum_views(values@)[2] == values@[2]@);
        }
        match Record::new(&model, values) {
            Some(record) => record,
            None => vstd::pervasive::unreached(),
        }
    }

    /// The customer that a record holds, or `None` where the record's values
    /// are not those of a customer.
    pub fn from_record(record: &Record) -> (customer: Option<Customer>)
        ensures
            is_customer(datum_views(record.values())) <==> customer is Some,
            customer matches Some(c) ==> customer_values(c) == datum_views(
                record.values(),
            ),
    {
        if record.len() != 3 {
            return None;
        }
        match (record.value(0), record.value(1), record.value(2)) {
            (Datum::Uuid(uuid), Datum::Text(name), Datum::Integer(balance)) => {
                let customer = Customer { uuid: *uuid, name: name.clone(), balance: *balance };
                Some(customer)
            },
            _ => None,
        }
    }
}

/// A field list of three fields of supported types, the first of which is
/// the field `uuid`, the one unique identifier, makes a record type: the
/// schema generator refuses none of the reasons it knows.
proof fn lemma_three_fields_make_a_record_type(fields: Seq<FieldDecl>)
    requires
        fields.len() == 3,
        fields[0].name@ == "uuid"@,
        sql_type_of(fields[0].declared_type@) == Some(SqlTypes::Uuid),
        sql_type_of(fields[1].declared_type@) is Some,
        sql_type_of(fields[1].declared_type@) != Some(SqlTypes::Uuid),
        sql_type_of(fields[2].declared_type@) is Some,
        sql_type_of(fields[2].declared_type@) != Some(SqlTypes::Uuid),
    ensures
        all_supported(fields),
        uuid_fields(fields) == seq![fields[0]],
{
    reveal_with_fuel(Seq::filter, 4);
    let two = fields.drop_last();
    let one = two.drop_last();
    let none = one.drop_last();
    assert(none.len() == 0);
    assert(one.last() == fields[0]);
    assert(two.last() == fields[1]);
    assert(uuid_fields(one) =~= seq![fields[0]]);
    assert(uuid_fields(two) =~= seq![fields[0]]);
    assert(uuid_fields(fields) =~= seq![fields[0]]);
}

/// What the declared type names stand for.
proof fn lemma_declared_types()
    ensures
        sql_type_of("Uuid"@) == Some(SqlTypes::Uuid),
        sql_type_of("String"@) == Some(SqlTypes::String),
        sql_type_of("i32"@) == Some(SqlTypes::Integer),
{
    reveal_strlit("Uuid");
    reveal_strlit("String");
    reveal_strlit("i32");
    assert("Uuid"@.len() == 4 && "String"@.len() == 6 && "i32"@.len() == 3);
}

/// The schema of a record type from its three declared fields.
fn model_of_three(table: &str, fields: Vec<FieldDecl>) -> (model: Model)
    requires
        fields@.len() == 3,
        fields@[0].name@ == "uuid"@,
        sql_type_of(fields@[0].declared_type@) == Some(SqlTypes::Uuid),
        sql_type_of(fields@[1].declared_type@) is Some,
        sql_type_of(fields@[1].declared_type@) != Some(SqlTypes::Uuid),
        sql_type_of(fields@[2].declared_type@) is Some,
        sql_type_of(fields@[2].declared_type@) != Some(SqlTypes::Uuid),
    ensures
        model.wf(),
        model.name() == table@,
        resolves(fields@, model.fields()),
{
    proof {
        lemma_three_fields_make_a_record_type(fields@);
    }
    match struct_to_sql(table, &fields) {
        Ok(model) => model,
        Err(_) => vstd::pervasive::unreached(),
    }
}

/// A number drawn by `rand::Rng::gen_range(low..=high)` from the generator
/// of the thread (`rand::thread_rng`). The contract claims what holds of
/// every draw: the number lies in the range.
#[verifier::external_body]
fn random_between(low: i32, high: i32) -> (n: i32)
    requires
        low <= high,
    ensures
        low <= n <= high,
{
    rand::thread_rng().gen_range(low..=high)
}

/// The name of the customer with the given number.
pub open spec fn customer_name(number: int) -> Seq<char> {
    "customer-"@ + decimal_text(number)
}

/// A customer with the given identifier, number and balance.
pub fn numbered_customer(uuid: u128, number: i32, balance: i32) -> (customer: Customer)
    ensures
        customer.uuid == uuid,
        customer.name@ == customer_name(number as int),
        customer.balance == balance,
{
    let mut name = String::from_str("customer-");
    name.append(decimal(number as i128).as_str());
    Customer { uuid, name, balance }
}

/// A random customer: a random identifier, a name `customer-N` with N from
/// 1 to 1000, and a balance from 0 to 1000.
pub fn get_random_customer() -> (customer: Customer)
    ensures
        is_random_uuid(customer.uuid),
        exists|number: int| 1 <= number <= 1000 && customer.name@ == customer_name(number),
        0 <= customer.balance <= 1000,
{
    let number = random_between(1, 1000);
    let balance = random_between(0, 1000);
    let customer = numbered_customer(random_uuid(), number, balance);
    customer
}

/// The values of a card's fields, in the order of their declaration. The
/// reference to the customer is the canonical text of the customer's
/// identifier.
pub open spec fn card_values(card: Card) -> Seq<DatumView> {
    seq![
        DatumView::Uuid(card.uuid),
        DatumView::Text(card.pan@),
        DatumView::Text(hyphenated(card.customer_uuid)),
    ]
}

/// The values of the fields of the card that `values` are read as: an
/// identifier, a text, and a text that stands for an identifier.
pub open spec fn card_of_values(values: Seq<DatumView>) -> Option<(u128, Seq<char>, u128)> {
    if values.len() == 3 {
        match (values[0], values[1], values[2]) {
            (DatumView::Uuid(uuid), DatumView::Text(pan), DatumView::Text(customer)) => {
                match uuid_of_text(customer) {
                    Some(customer_uuid) => Some((uuid, pan, customer_uuid)),
                    None => None,
                }
            },
            _ => None,
        }
    } else {
        None
    }
}

impl Card {
    /// The name of the cards' table.
    pub fn table() -> (name: &'static str)
        ensures
            name@ == "Card"@,
    {
        "Card"
    }

    /// The fields of a card as they are declared: `uuid`, `pan` and
    /// `customer_uuid`. A record type has one unique identifier, the field
    /// `uuid`; the reference to the customer is declared as a text.
    pub fn declared_fields() -> (fields: Vec<FieldDecl>)
        ensures
            fields@.len() == 3,
            fields@[0].name@ == "uuid"@ && fields@[0].declared_type@ == "Uuid"@,
            fields@[1].name@ == "pan"@ && fields@[1].declared_type@ == "String"@,
            fields@[2].name@ == "customer_uuid"@ && fields@[2].declared_type@ == "String"@,
    {
        vec![declare("uuid", "Uuid"), declare("pan", "String"), declare("customer_uuid", "String")]
    }

    /// The schema of the cards' table: the schema generator accepts the
    /// fields of a card.
    pub fn model() -> (model: Model)
        ensures
            model.wf(),
            model.name() == "Card"@,
            model.fields().len() == 3,
            model.fields()[0].name@ == "uuid"@ && model.fields()[0].sql_type == SqlTypes::Uuid,
            model.fields()[1].name@ == "pan"@ && model.fields()[1].sql_type == SqlTypes::String,
            model.fields()[2].name@ == "customer_uuid"@ && model.fields()[2].sql_type
                == SqlTypes::String,
    {
        proof {
            lemma_declared_types();
        }
        model_of_three(Card::table(), Card::declared_fields())
    }

    /// The values of the card's fields, in the order of their declaration.
    pub fn values(&self) -> (values: Vec<Datum>)
        ensures
            datum_views(values@) == card_values(*self),
    {
        let values = vec![
            Datum::Uuid(self.uuid),
            Datum::Text(self.pan.clone()),
            Datum::Text(uuid_text(self.customer_uuid)),
        ];
        values
    }

    /// The card as a record of the cards' table.
    pub fn to_record(&self) -> (record: Record)
        ensures
            record.wf(),
            record.id() == self.uuid,
            datum_views(record.values()) == card_values(*self),
    {
        let model = Card::model();
        let values = self.values();
        proof {
            assert(datum_views(values@).len() == 3);
            assert(datum_views(values@)[0] == values@[0]@);
            assert(datum_views(values@)[1] == values@[1]@);
            assert(datum_views(values@)[2] == values@[2]@);
        }
        match Record::new(&model, values) {
            Some(record) => record,
            None => vstd::pervasive::unreached(),
        }
    }

    /// The card that a record holds, or `None` where the record's values
    /// are not those of a card.
    pub fn from_record(record: &Record) -> (card: Option<Card>)
        ensures
            match card {
                Some(c) => card_of_values(datum_views(record.values())) == Some(
                    (c.uuid, c.pan@, c.customer_uuid),
                ),
                None => card_of_values(datum_views(record.values())) is None,
            },
    {
        if record.len() != 3 {
            return None;
        }
        match (record.value(0), record.value(1), record.value(2)) {
            (Datum::Uuid(uuid), Datum::Text(pan), Datum::Text(customer)) => {
                match parse_uuid(customer.as_str()) {
                    Some(customer_uuid) => Some(
                        Card { uuid: *uuid, pan: pan.clone(), customer_uuid },
                    ),
                    None => None,
                }
            },
            _ => None,
        }
    }
}

} // verus!
