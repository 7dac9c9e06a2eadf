use sqlrepo::apigateway::{
    create_account as handle_create_account, create_account_reply, create_account_request,
    get_balance as handle_get_balance, get_balance_reply, get_balance_request, response, Method,
    Reply,
};
use sqlrepo::deploy::{
    create_bank_db_instance, get_cluster, init_agent, reset_cluster_instances, AuroraError,
};
use sqlrepo::domain::{
    authorize_transaction, balance_of, check_amount, create_account, get_balance, verdict,
    BankMemoryRepository, BankRdsRepository, BankRepository,
};
use sqlrepo::error::InterfaceError;
use sqlrepo::model::{struct_to_sql, QuerySet, Record};
use sqlrepo::models::{get_random_customer, numbered_customer, Card, Customer};
use sqlrepo::ports::{Create, Get, HasUuid, List};
use sqlrepo::rds_client::{RdsClient, RdsSettings, SecretArn};
use sqlrepo::text::{decimal, join};

const ID: u128 = 0x0829b81a_f86e_4411_870a_ca16e6b73189;
const ID_TEXT: &str = "0829b81a-f86e-4411-870a-ca16e6b73189";

fn customer(balance: i32) -> Customer {
    Customer { uuid: ID, name: "Ann".to_string(), balance }
}

fn bank_with(customer: Customer) -> BankMemoryRepository {
    let mut bank = BankMemoryRepository::new();
    bank.customers.create(customer).unwrap();
    bank
}

fn message(status: u16, message: &str) -> Reply<'static> {
    Reply::Message { status, message: message.to_string() }
}

#[test]
fn a_new_bank_is_empty() {
    let bank = BankMemoryRepository::new();
    assert_eq!(bank.customers().list().unwrap().len(), 0);
    assert_eq!(bank.cards().list().unwrap().len(), 0);
}

#[test]
fn a_bank_holds_customers_and_cards_apart() {
    let mut bank = bank_with(customer(5));
    let card = Card { uuid: ID, pan: "4902455397888949".to_string(), customer_uuid: ID };
    bank.cards.create(card.clone()).unwrap();
    assert_eq!(bank.customers().get(&ID).unwrap(), Some(&customer(5)));
    assert_eq!(bank.cards().get(&ID).unwrap(), Some(&card));
    assert_eq!(card.get_uuid(), ID);
    assert_eq!(customer(5).get_uuid(), ID);
}

#[test]
fn balance_of_a_customer_is_the_customer() {
    let bank = bank_with(customer(5));
    assert_eq!(get_balance(bank.customers(), ID).unwrap(), Some(&customer(5)));
}

#[test]
fn balance_of_nobody_is_a_missing_item() {
    let bank = BankMemoryRepository::new();
    match get_balance(bank.customers(), ID) {
        Err(InterfaceError::MissingItem(detail)) => assert_eq!(detail, ID_TEXT),
        other => panic!("unexpected outcome: {:?}", other),
    }
    assert!(matches!(
        balance_of(ID, Err(InterfaceError::RdsError("down".to_string()))),
        Err(InterfaceError::RdsError(_))
    ));
}

#[test]
fn accounts_are_created_under_their_identifier() {
    let mut bank = BankMemoryRepository::new();
    create_account(&mut bank.customers, customer(7)).unwrap();
    assert_eq!(bank.customers.get(&ID).unwrap(), Some(&customer(7)));
}

#[test]
fn transactions_need_a_positive_amount() {
    let bank = bank_with(customer(100));
    for amount in [0, -1, i32::MIN] {
        match authorize_transaction(bank.customers(), ID, amount) {
            Err(InterfaceError::Other(detail)) => {
                assert_eq!(detail, "amount of transaction needs to be positive")
            }
            other => panic!("unexpected outcome: {:?}", other),
        }
        assert!(check_amount(amount).is_err());
    }
    assert!(check_amount(1).is_ok());
}

#[test]
fn transactions_need_a_customer() {
    let bank = BankMemoryRepository::new();
    match authorize_transaction(bank.customers(), ID, 1) {
        Err(InterfaceError::MissingItem(detail)) => assert_eq!(detail, ID_TEXT),
        other => panic!("unexpected outcome: {:?}", other),
    }
}

#[test]
fn transactions_need_enough_balance() {
    let bank = bank_with(customer(100));
    assert!(authorize_transaction(bank.customers(), ID, 1).is_ok());
    assert!(authorize_transaction(bank.customers(), ID, 100).is_ok());
    match authorize_transaction(bank.customers(), ID, 101) {
        Err(InterfaceError::Other(detail)) => {
            assert_eq!(detail, "transaction refused: not enough balance")
        }
        other => panic!("unexpected outcome: {:?}", other),
    }
    assert!(matches!(
        verdict(ID, 5, Err(InterfaceError::RdsError("down".to_string()))),
        Err(InterfaceError::RdsError(_))
    ));
    assert!(matches!(
        verdict(ID, 0, Err(InterfaceError::RdsError("down".to_string()))),
        Err(InterfaceError::Other(_))
    ));
}

#[test]
fn balance_handler_decides_before_the_lookup() {
    assert_eq!(
        get_balance_request(Method::Post, Some(ID_TEXT)),
        Err(message(405, "Method Not Allowed"))
    );
    assert_eq!(
        get_balance_request(Method::Other, None),
        Err(message(405, "Method Not Allowed"))
    );
    assert_eq!(
        get_balance_request(Method::Get, None),
        Err(message(400, "Missing 'uuid' parameter in path"))
    );
    assert_eq!(
        get_balance_request(Method::Get, Some("42")),
        Err(message(400, "Invalid UUID format"))
    );
    assert_eq!(get_balance_request(Method::Get, Some(ID_TEXT)), Ok(ID));
}

#[test]
fn balance_handler_replies_to_the_lookup() {
    let ann = customer(5);
    assert_eq!(get_balance_reply(Ok(Some(&ann))), Reply::Found(&ann));
    assert_eq!(get_balance_reply(Ok(Some(&ann))).status(), 200);
    assert_eq!(get_balance_reply(Ok(None)), message(404, "Customer not found"));
    assert_eq!(
        get_balance_reply(Err(InterfaceError::MissingItem(ID_TEXT.to_string()))),
        message(500, "Error fetching the customer")
    );
}

#[test]
fn balance_handler_end_to_end() {
    let bank = bank_with(customer(5));
    assert_eq!(
        handle_get_balance(bank.customers(), Method::Get, Some(ID_TEXT)),
        Reply::Found(&customer(5))
    );
    assert_eq!(
        handle_get_balance(
            bank.customers(),
            Method::Get,
            Some("00000000-0000-0000-0000-000000000001")
        ),
        message(500, "Error fetching the customer")
    );
    assert_eq!(
        handle_get_balance(bank.customers(), Method::Post, Some(ID_TEXT)).status(),
        405
    );
}

#[test]
fn account_handler_decides_before_the_creation() {
    assert_eq!(
        create_account_request(Method::Get, Ok(Some(customer(1)))),
        Err(message(405, "Method Not Allowed"))
    );
    assert_eq!(
        create_account_request(Method::Post, Ok(None)),
        Err(message(400, "Missing account details in request body"))
    );
    assert_eq!(
        create_account_request(Method::Post, Err("eof".to_string())),
        Err(message(400, "Failed to parse account detials from request body"))
    );
    assert_eq!(create_account_request(Method::Post, Ok(Some(customer(1)))), Ok(customer(1)));
}

#[test]
fn account_handler_replies_to_the_creation() {
    assert_eq!(create_account_reply(Ok(())), message(201, "Account created"));
    assert_eq!(
        create_account_reply(Err(InterfaceError::RdsError("down".to_string()))),
        message(500, "Failed to create account")
    );
}

#[test]
fn test_flow() {
    let mut bank = BankMemoryRepository::new();
    let customer = get_random_customer();

    // Create account for customer
    let res = handle_create_account(&mut bank.customers, Method::Post, Ok(Some(customer.clone())));
    assert_eq!(res.status(), 201);

    // Get balance
    let text = sqlrepo::ident::uuid_text(customer.uuid);
    let res = handle_get_balance(bank.customers(), Method::Get, Some(&text));
    assert_eq!(res.status(), 200);
    match res {
        Reply::Found(res_customer) => assert_eq!(customer.balance, res_customer.balance),
        other => panic!("unexpected reply: {:?}", other),
    }
}

#[test]
fn responses_carry_json() {
    let r = response(201, "{}".to_string());
    assert_eq!(r.status, 201);
    assert_eq!(r.content_type, "application/json");
    assert_eq!(r.body, "{}");
}

#[test]
fn random_customers_are_in_range() {
    for _ in 0..50 {
        let customer = get_random_customer();
        assert!((0..=1000).contains(&customer.balance));
        let number: i32 = customer.name.strip_prefix("customer-").unwrap().parse().unwrap();
        assert!((1..=1000).contains(&number));
        let hex = format!("{:032x}", customer.uuid);
        assert_eq!(&hex[12..13], "4");
        assert!(["8", "9", "a", "b"].contains(&&hex[16..17]));
    }
    assert_eq!(numbered_customer(1, 17, -3).name, "customer-17");
}

#[test]
fn the_bank_has_a_schema_for_each_of_its_record_types() {
    assert_eq!(
        Customer::model().create_table(),
        "CREATE TABLE IF NOT EXISTS Customer (uuid UUID, name VARCHAR(255), balance INTEGER)"
    );
    assert_eq!(
        Customer::model().update(),
        "UPDATE Customer SET name = :name, balance = :balance WHERE uuid = :uuid"
    );
    assert_eq!(
        Card::model().create_table(),
        "CREATE TABLE IF NOT EXISTS Card (uuid UUID, pan VARCHAR(255), customer_uuid VARCHAR(255))"
    );
    assert_eq!(
        Card::model().create(),
        "INSERT INTO Card (uuid, pan, customer_uuid) VALUES (:uuid, :pan, :customer_uuid)"
    );
    assert_eq!(Customer::model(), struct_to_sql("Customer", &Customer::declared_fields()).unwrap());
    let bank = BankRdsRepository::new(std::sync::Arc::new(RdsClient::new(&RdsSettings {
        secretarn: SecretArn::new("arn:secret".to_string()),
        clusterarn: "arn:cluster".to_string(),
        dbinstance: "bank_1".to_string(),
    })));
    assert_eq!(bank.customers.list().sql, Some("SELECT * FROM Customer".to_string()));
    assert_eq!(bank.cards.list().sql, Some("SELECT * FROM Card".to_string()));
    assert_eq!(bank.customers.create(&customer(3).to_record()).database, "bank_1");
}

#[test]
fn customers_convert_to_records_and_back() {
    let model = struct_to_sql(Customer::table(), &Customer::declared_fields()).unwrap();
    let ann = customer(12);
    assert_eq!(ann.to_record(), Record::new(&model, ann.values()).unwrap());
    let record = Record::new(&model, ann.values()).unwrap();
    assert_eq!(record.get_uuid(), ID);
    assert_eq!(Customer::from_record(&record), Some(ann));
    let other = struct_to_sql("Item1", &vec![
        sqlrepo::sql::FieldDecl { name: "uuid".to_string(), declared_type: "Uuid".to_string() },
        sqlrepo::sql::FieldDecl { name: "field1".to_string(), declared_type: "i32".to_string() },
    ])
    .unwrap();
    let item = Record::new(
        &other,
        vec![sqlrepo::params::Datum::Uuid(1), sqlrepo::params::Datum::Integer(2)],
    )
    .unwrap();
    assert_eq!(Customer::from_record(&item), None);
}

#[test]
fn cards_convert_to_records_and_back() {
    let model = struct_to_sql(Card::table(), &Card::declared_fields()).unwrap();
    let card = Card { uuid: ID, pan: "4902455397888949".to_string(), customer_uuid: 7 };
    assert_eq!(card.to_record(), Record::new(&model, card.values()).unwrap());
    let record = Record::new(&model, card.values()).unwrap();
    assert_eq!(record.get_uuid(), ID);
    assert_eq!(
        *record.value(2),
        sqlrepo::params::Datum::Text("00000000-0000-0000-0000-000000000007".to_string())
    );
    assert_eq!(Card::from_record(&record), Some(card));
    let broken = Record::new(
        &model,
        vec![
            sqlrepo::params::Datum::Uuid(ID),
            sqlrepo::params::Datum::Text("4902455397888949".to_string()),
            sqlrepo::params::Datum::Text("nobody".to_string()),
        ],
    )
    .unwrap();
    assert_eq!(Card::from_record(&broken), None);
}

#[test]
fn exactly_one_cluster_is_worked_on() {
    assert_eq!(get_cluster(vec!["a"]), Ok("a"));
    assert_eq!(get_cluster::<&str>(vec![]), Err(AuroraError::InvalidNumberOfClusters(0)));
    assert_eq!(get_cluster(vec!["a", "b"]), Err(AuroraError::InvalidNumberOfClusters(2)));
    assert_eq!(
        AuroraError::InvalidNumberOfClusters(2).message(),
        "Number of clusters found: 2"
    );
    assert_eq!(
        AuroraError::DescribeClusters("x".to_string()).message(),
        "Failed to describe clusters : x"
    );
    assert_eq!(
        AuroraError::DeleteInstance("x".to_string()).message(),
        "Failed to delete instance : x"
    );
}

#[test]
fn a_reset_deletes_every_member() {
    assert_eq!(reset_cluster_instances(None), Vec::<String>::new());
    assert_eq!(
        reset_cluster_instances(Some(vec!["a".to_string(), "b".to_string()])),
        vec!["a".to_string(), "b".to_string()]
    );
    assert_eq!(create_bank_db_instance("bank_1"), "db-instance-bank_1");
}

#[test]
fn an_agent_gets_its_database() {
    let client = RdsClient::new(&RdsSettings {
        secretarn: SecretArn::new("arn:secret".to_string()),
        clusterarn: "arn:cluster".to_string(),
        dbinstance: "postgres".to_string(),
    });
    let request = init_agent(&client, "bank_1");
    assert_eq!(request.sql, Some("CREATE DATABASE bank_1".to_string()));
    assert_eq!(request.parameters, None);
    assert_eq!(request.database, "postgres");
}

#[test]
fn texts_join_and_numbers_print() {
    assert_eq!(join(&vec![], ", "), "");
    assert_eq!(join(&vec!["a".to_string()], ", "), "a");
    assert_eq!(join(&vec!["a".to_string(), "b".to_string(), "c".to_string()], ", "), "a, b, c");
    assert_eq!(decimal(0), "0");
    assert_eq!(decimal(-15), "-15");
    assert_eq!(decimal(1000), "1000");
}
