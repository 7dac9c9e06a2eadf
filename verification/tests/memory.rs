use sqlrepo::memory::InMemoryRepository;
use sqlrepo::ports::{Create, Delete, Get, HasUuid, List, Repository, Update};
use uuid::Uuid;

#[derive(Default, Debug, Clone, PartialEq)]
struct Item1 {
    uuid: u128,
    field1: i32,
}

impl HasUuid for Item1 {
    fn uuid(&self) -> u128 {
        self.uuid
    }

    fn get_uuid(&self) -> u128 {
        self.uuid
    }
}

// Gen item
fn gen_item() -> Item1 {
    Item1 { uuid: Uuid::new_v4().as_u128(), field1: 3 }
}

fn count<R: Repository<Item1>>(repo: &R) -> usize {
    repo.list().unwrap().len()
}

#[test]
fn memory_test_new() {
    // GIVEN an empty repository
    let repo: InMemoryRepository<Item1> = InMemoryRepository::new();

    // WHEN we get the length of all items
    // THEN we get 0
    assert_eq!(repo.len(), 0);
}

#[test]
fn memory_test_all_empty() {
    // GIVEN an empty repo
    let repo: InMemoryRepository<Item1> = InMemoryRepository::new();

    // WHEN we get all items
    let all = repo.list().unwrap();

    // THEN we get an empty list
    assert_eq!(all.len(), 0);
}

#[test]
fn memory_test_all() {
    // GIVEN a repo with two items
    let item1 = gen_item();
    let item2 = gen_item();
    let mut repo: InMemoryRepository<Item1> = InMemoryRepository::new();
    repo.create(item1.clone()).unwrap();
    repo.create(item2.clone()).unwrap();

    // WHEN we get all items
    let all = repo.list().unwrap();

    // THEN we get the items
    assert_eq!(all.len(), 2);
    assert!(all.contains(&&item1));
    assert!(all.contains(&&item2));
}

#[test]
fn memory_test_delete() {
    // GIVEN a repo with one item
    let item = gen_item();
    let mut repo: InMemoryRepository<Item1> = InMemoryRepository::new();
    repo.create(item.clone()).unwrap();

    // WHEN deleting the item
    repo.delete(&item.uuid).unwrap();

    // THEN the length of the repo is 0
    assert_eq!(repo.len(), 0);
    // AND the item is not returned
    assert_eq!(repo.get(&item.uuid).unwrap(), None);
}

#[test]
fn memory_test_get() {
    // GIVEN a repo with an item
    let item = gen_item();
    let mut repo: InMemoryRepository<Item1> = InMemoryRepository::new();
    repo.create(item.clone()).unwrap();

    // WHEN getting the product
    let item_from_dataset = repo.get(&item.uuid).unwrap();

    // THEN the product is returned
    assert_eq!(item_from_dataset, Some(&item));
}

#[test]
fn memory_test_update() {
    // GIVEN an empty repo and an item
    let item = gen_item();
    let mut repo: InMemoryRepository<Item1> = InMemoryRepository::new();

    // WHEN inserting a product
    repo.update(item.clone()).unwrap();

    // THEN the length of the repo is 1
    assert_eq!(repo.len(), 1);
    // AND the item is returned
    assert_eq!(repo.get(&item.uuid).unwrap(), Some(&item));
}

#[test]
fn memory_test_create() {
    // GIVEN an empty repo and an item
    let item = gen_item();
    let mut repo: InMemoryRepository<Item1> = InMemoryRepository::new();

    // WHEN inserting a product
    repo.create(item.clone()).unwrap();

    // THEN the length of the repo is 1
    assert_eq!(repo.len(), 1);
    // AND the item is returned
    assert_eq!(repo.get(&item.uuid).unwrap(), Some(&item));
}

#[test]
fn memory_create_then_get_returns_the_record_with_every_field() {
    let mut repo: InMemoryRepository<Item1> = InMemoryRepository::new();
    let item = Item1 { uuid: 42, field1: -17 };
    repo.create(item.clone()).unwrap();
    let found = repo.get(&42).unwrap().unwrap();
    assert_eq!(found.uuid, 42);
    assert_eq!(found.field1, -17);
}

#[test]
fn memory_create_delete_then_get_finds_nothing() {
    let mut repo: InMemoryRepository<Item1> = InMemoryRepository::new();
    let item = gen_item();
    repo.create(item.clone()).unwrap();
    repo.delete(&item.uuid).unwrap();
    assert_eq!(repo.get(&item.uuid).unwrap(), None);
    // deleting an absent key is no error
    assert!(repo.delete(&item.uuid).is_ok());
}

#[test]
fn memory_update_reflects_the_latest_fields() {
    let mut repo: InMemoryRepository<Item1> = InMemoryRepository::new();
    let mut item = gen_item();
    repo.create(item.clone()).unwrap();
    item.field1 += 1;
    repo.update(item.clone()).unwrap();
    assert_eq!(repo.get(&item.uuid).unwrap().unwrap().field1, 4);
    assert_eq!(count(&repo), 1);
}

#[test]
fn memory_create_twice_under_one_key_keeps_the_last() {
    let mut repo: InMemoryRepository<Item1> = InMemoryRepository::new();
    repo.create(Item1 { uuid: 9, field1: 1 }).unwrap();
    repo.create(Item1 { uuid: 9, field1: 2 }).unwrap();
    assert_eq!(repo.len(), 1);
    assert_eq!(repo.get(&9).unwrap(), Some(&Item1 { uuid: 9, field1: 2 }));
}

#[test]
fn memory_writes_under_distinct_keys_lose_nothing_in_either_order() {
    let a = Item1 { uuid: 1, field1: 10 };
    let b = Item1 { uuid: 2, field1: 20 };
    let mut first: InMemoryRepository<Item1> = InMemoryRepository::new();
    first.create(a.clone()).unwrap();
    first.create(b.clone()).unwrap();
    let mut second: InMemoryRepository<Item1> = InMemoryRepository::new();
    second.create(b.clone()).unwrap();
    second.create(a.clone()).unwrap();
    for repo in [&first, &second] {
        assert_eq!(repo.len(), 2);
        assert_eq!(repo.get(&1).unwrap(), Some(&a));
        assert_eq!(repo.get(&2).unwrap(), Some(&b));
    }
}

#[test]
fn memory_many_writes_are_all_listed() {
    let mut repo: InMemoryRepository<Item1> = InMemoryRepository::new();
    for key in 0..100u128 {
        repo.create(Item1 { uuid: key, field1: key as i32 }).unwrap();
    }
    let all = repo.list().unwrap();
    assert_eq!(all.len(), 100);
    for key in 0..100u128 {
        assert!(all.contains(&&Item1 { uuid: key, field1: key as i32 }));
    }
}

#[test]
fn memory_listing_is_a_snapshot() {
    let mut repo: InMemoryRepository<Item1> = InMemoryRepository::new();
    repo.create(Item1 { uuid: 1, field1: 1 }).unwrap();
    let snapshot: Vec<Item1> = repo.list().unwrap().into_iter().cloned().collect();
    repo.create(Item1 { uuid: 2, field1: 2 }).unwrap();
    repo.delete(&1).unwrap();
    assert_eq!(snapshot, vec![Item1 { uuid: 1, field1: 1 }]);
}
