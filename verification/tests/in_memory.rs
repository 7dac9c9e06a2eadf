use sqlrepo::in_memory::{Create, Delete, Get, GetAll, InMemory, Update};
use sqlrepo::PrimaryKey;

#[derive(Default, Debug, Clone, PartialEq)]
struct Item1 {
    pk: i32,
    field1: &'static str,
}

impl PrimaryKey<i32> for Item1 {
    fn pk(&self) -> i32 {
        self.pk
    }

    fn get_pk(&self) -> i32 {
        self.pk
    }
}

const ITEM1_0: Item1 = Item1 { pk: 0, field1: "abc" };

const ITEM1_1: Item1 = Item1 { pk: 1, field1: "bcd" };

#[test]
fn in_memory_test_new() {
    // GIVEN an empty repository
    let repo: InMemory<Item1, i32> = InMemory::new();

    // WHEN we get the length of all items
    // THEN we get 0
    assert_eq!(repo.len(), 0);
}

#[test]
fn in_memory_test_all_empty() {
    // GIVEN an empty repo
    let repo: InMemory<Item1, i32> = InMemory::new();

    // WHEN we get all items
    let all = repo.all().unwrap();

    // THEN we get an empty list
    assert_eq!(all.len(), 0);
}

#[test]
fn in_memory_test_all() {
    // GIVEN a repo with two items
    let mut repo: InMemory<Item1, i32> = InMemory::new();
    repo.create(ITEM1_0.clone()).unwrap();
    repo.create(ITEM1_1.clone()).unwrap();

    // WHEN we get all items
    let all = repo.all().unwrap();

    // THEN we get the items
    assert_eq!(all.len(), 2);
    assert!(all.contains(&&ITEM1_0));
    assert!(all.contains(&&ITEM1_1));
}

#[test]
fn in_memory_test_delete() {
    // GIVEN a repo with one item
    let mut repo: InMemory<Item1, i32> = InMemory::new();
    repo.create(ITEM1_0.clone()).unwrap();

    // WHEN deleting the item
    repo.delete(&ITEM1_0.get_pk()).unwrap();

    // THEN the length of the repo is 0
    assert_eq!(repo.len(), 0);
    // AND the item is not returned
    assert_eq!(repo.get(&ITEM1_0.get_pk()).unwrap(), None);
}

#[test]
fn in_memory_test_get() {
    // GIVEN a repo with an item
    let mut repo: InMemory<Item1, i32> = InMemory::new();
    repo.create(ITEM1_0.clone()).unwrap();

    // WHEN getting the product
    let item = repo.get(&ITEM1_0.get_pk()).unwrap();

    // THEN the product is returned
    assert_eq!(item, Some(&ITEM1_0));
}

#[test]
fn in_memory_test_update() {
    // GIVEN an empty repo and an item
    let mut repo: InMemory<Item1, i32> = InMemory::new();

    // WHEN inserting a product
    repo.update(ITEM1_0.clone()).unwrap();

    // THEN the length of the repo is 1
    assert_eq!(repo.len(), 1);
    // AND the item is returned
    assert_eq!(repo.get(&ITEM1_0.get_pk()).unwrap(), Some(&ITEM1_0));
}

#[test]
fn in_memory_test_create() {
    // GIVEN an empty repo and an item
    let mut repo: InMemory<Item1, i32> = InMemory::new();

    // WHEN inserting a product
    repo.create(ITEM1_0.clone()).unwrap();

    // THEN the length of the repo is 1
    assert_eq!(repo.len(), 1);
    // AND the item is returned
    assert_eq!(repo.get(&ITEM1_0.get_pk()).unwrap(), Some(&ITEM1_0));
}

#[test]
fn in_memory_update_replaces_the_record_under_its_key() {
    let mut repo: InMemory<Item1, i32> = InMemory::new();
    repo.create(ITEM1_0.clone()).unwrap();
    repo.create(ITEM1_1.clone()).unwrap();
    let changed = Item1 { pk: 0, field1: "xyz" };
    repo.update(changed.clone()).unwrap();
    assert_eq!(repo.len(), 2);
    assert_eq!(repo.get(&0).unwrap(), Some(&changed));
    assert_eq!(repo.get(&1).unwrap(), Some(&ITEM1_1));
}

#[test]
fn in_memory_delete_of_an_absent_key_is_no_error() {
    let mut repo: InMemory<Item1, i32> = InMemory::new();
    repo.create(ITEM1_1.clone()).unwrap();
    assert!(repo.delete(&0).is_ok());
    assert_eq!(repo.len(), 1);
    assert_eq!(repo.get(&1).unwrap(), Some(&ITEM1_1));
}

#[test]
fn in_memory_stores_customers_under_their_identifier() {
    let mut repo: InMemory<sqlrepo::models::Customer, u128> = InMemory::new();
    let ann = sqlrepo::models::Customer { uuid: 7, name: "Ann".to_string(), balance: 3 };
    repo.create(ann.clone()).unwrap();
    assert_eq!(repo.get(&7).unwrap(), Some(&ann));
    assert_eq!(repo.all().unwrap(), vec![&ann]);
    assert_eq!(ann.get_pk(), 7);
}
