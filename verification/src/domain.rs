//! The bank: its repositories and the rules of its accounts.

use crate::error::InterfaceError;
use crate::ident::{hyphenated, uuid_text};
use crate::memory::InMemoryRepository;
use crate::models::{Card, Customer};
use crate::ports::{Create, Get, Records, Repository};
use crate::rds::RdsRepository;
use crate::rds_client::RdsClient;
use crate::store::{is_lookup, lookup, stored_at};
use std::sync::Arc;
use vstd::prelude::*;
use vstd::string::StringExecFns;

verus! {

/// The repositories of a bank: one of customers, one of cards.
pub trait BankRepository {
    type Customers: Repository<Customer>;

    type Cards: Repository<Card>;

    /// Both repositories can be used.
    spec fn ready(&self) -> bool;

    /// The repository of customers.
    spec fn customer_records(&self) -> Self::Customers;

    /// The repository of cards.
    spec fn card_records(&self) -> Self::Cards;

    fn customers(&self) -> (repo: &Self::Customers)
        requires
            self.ready(),
        ensures
            *repo == self.customer_records(),
            repo.ready(),
    ;

    fn cards(&self) -> (repo: &Self::Cards)
        requires
            self.ready(),
        ensures
            *repo == self.card_records(),
            repo.ready(),
    ;
}

/// The repositories of a bank, held in memory.
pub struct BankMemoryRepository {
    pub customers: InMemoryRepository<Customer>,
    pub cards: InMemoryRepository<Card>,
}

impl BankMemoryRepository {
    /// A bank without customers and without cards.
    pub fn new() -> (bank: Self)
        ensures
            bank.customers.wf(),
            bank.cards.wf(),
            bank.customers@ == Map::<u128, Customer>::empty(),
            bank.cards@ == Map::<u128, Card>::empty(),
    {
        let customers: InMemoryRepository<Customer> = InMemoryRepository::new();
        let cards: InMemoryRepository<Card> = InMemoryRepository::new();
        Self { customers, cards }
    }
}

impl BankRepository for BankMemoryRepository {
    type Customers = InMemoryRepository<Customer>;

    type Cards = InMemoryRepository<Card>;

    open spec fn ready(&self) -> bool {
        self.customers.wf() && self.cards.wf()
    }

    open spec fn customer_records(&self) -> InMemoryRepository<Customer> {
        self.customers
    }

    open spec fn card_records(&self) -> InMemoryRepository<Card> {
        self.cards
    }

    fn customers(&self) -> (repo: &InMemoryRepository<Customer>) {
        &self.customers
    }

    fn cards(&self) -> (repo: &InMemoryRepository<Card>) {
        &self.cards
    }
}

/// The repositories of a bank whose storage is the remote database: the
/// table of customers and the table of cards, over one connection.
pub struct BankRdsRepository {
    pub customers: RdsRepository,
    pub cards: RdsRepository,
}

impl BankRdsRepository {
    /// The repositories of the bank over `client`.
    pub fn new(client: Arc<RdsClient>) -> (bank: Self)
        ensures
            bank.customers.wf(),
            bank.cards.wf(),
            bank.customers.connection() == *client,
            bank.cards.connection() == *client,
            bank.customers.model().name() == "Customer"@,
            bank.cards.model().name() == "Card"@,
    {
        let customers = RdsRepository::new(Arc::clone(&client), Box::new(Customer::model()));
        let cards = RdsRepository::new(client, Box::new(Card::model()));
        BankRdsRepository { customers, cards }
    }
}

/// The detail of the refusal of an amount that is not positive.
pub open spec fn amount_detail() -> Seq<char> {
    "amount of transaction needs to be positive"@
}

/// The detail of the refusal of an amount above the balance.
pub open spec fn balance_detail() -> Seq<char> {
    "transaction refused: not enough balance"@
}

/// `found` is the balance lookup that a repository's answer amounts to: a
/// customer is handed on, absence is a missing item named by the identifier's
/// text, a failure is handed on.
pub open spec fn is_balance(
    found: Result<Option<&Customer>, InterfaceError>,
    uuid: u128,
    answer: Result<Option<&Customer>, InterfaceError>,
) -> bool {
    match answer {
        Ok(Some(customer)) => found matches Ok(Some(c)) && c == customer,
        Ok(None) => found matches Err(InterfaceError::MissingItem(detail)) && detail@
            == hyphenated(uuid),
        Err(error) => found == Err::<Option<&Customer>, InterfaceError>(error),
    }
}

/// `done` is the verdict on a transaction of `amount` for the customer that
/// a repository answered with: the amount must be positive, the customer
/// must exist, and the amount must not exceed the balance.
pub open spec fn is_verdict(
    done: Result<(), InterfaceError>,
    uuid: u128,
    amount: i32,
    answer: Result<Option<&Customer>, InterfaceError>,
) -> bool {
    if amount <= 0 {
        done matches Err(InterfaceError::Other(detail)) && detail@ == amount_detail()
    } else {
        match answer {
            Err(error) => done == Err::<(), InterfaceError>(error),
            Ok(None) => done matches Err(InterfaceError::MissingItem(detail)) && detail@
                == hyphenated(uuid),
            Ok(Some(customer)) => if amount > customer.balance {
                done matches Err(InterfaceError::Other(detail)) && detail@ == balance_detail()
            } else {
                done is Ok
            },
        }
    }
}

/// Whether a transaction of `amount` can be looked at: the amount must be
/// positive. This comes before the customer is fetched.
pub fn check_amount(amount: i32) -> (done: Result<(), InterfaceError>)
    ensures
        amount > 0 ==> done is Ok,
        amount <= 0 ==> (done matches Err(InterfaceError::Other(detail)) && detail@
            == amount_detail()),
{
    if amount <= 0 {
        return Err(
            InterfaceError::Other(String::from_str("amount of transaction needs to be positive")),
        );
    }
    Ok(())
}

/// The balance lookup that a repository's answer for `uuid` amounts to.
pub fn balance_of<'a>(uuid: u128, answer: Result<Option<&'a Customer>, InterfaceError>) -> (found:
    Result<Option<&'a Customer>, InterfaceError>)
    ensures
        is_balance(found, uuid, answer),
{
    match answer {
        Ok(Some(customer)) => Ok(Some(customer)),
        Ok(None) => Err(InterfaceError::MissingItem(uuid_text(uuid))),
        Err(error) => Err(error),
    }
}

/// The verdict on a transaction of `amount` for the customer that a
/// repository answered with. This does not perform the transaction.
pub fn verdict(uuid: u128, amount: i32, answer: Result<Option<&Customer>, InterfaceError>) -> (done:
    Result<(), InterfaceError>)
    ensures
        is_verdict(done, uuid, amount, answer),
{
    if amount <= 0 {
        return Err(
            InterfaceError::Other(String::from_str("amount of transaction needs to be positive")),
        );
    }
    match answer {
        Err(error) => Err(error),
        Ok(None) => Err(InterfaceError::MissingItem(uuid_text(uuid))),
        Ok(Some(customer)) => {
            if amount > customer.balance {
                Err(
                    InterfaceError::Other(
                        String::from_str("transaction refused: not enough balance"),
                    ),
                )
            } else {
                Ok(())
            }
        },
    }
}

/// What a repository may answer when it is asked for `uuid`: where it
/// succeeds, what a lookup in its records gives.
pub open spec fn is_answer<R: Get<Customer>>(
    answer: Result<Option<&Customer>, InterfaceError>,
    repo: &R,
    uuid: u128,
) -> bool {
    answer matches Ok(item) ==> is_lookup(item, repo.records(), uuid)
}

/// Get the current balance of a customer: the customer as the repository
/// holds it. A customer that the repository does not hold is a missing
/// item; a failure of the repository is handed on.
pub fn get_balance<R: Get<Customer>>(repo: &R, uuid: u128) -> (found: Result<
    Option<&Customer>,
    InterfaceError,
>)
    requires
        repo.ready(),
    ensures
        exists|answer: Result<Option<&Customer>, InterfaceError>|
            is_answer(answer, repo, uuid) && is_balance(found, uuid, answer),
        found matches Ok(customer) ==> customer is Some && is_lookup(
            customer,
            repo.records(),
            uuid,
        ),
{
    let answer = repo.get(&uuid);
    let found = balance_of(uuid, answer);
    found
}

/// Create a customer account: the customer is persisted under its
/// identifier. The account is created exactly where the repository takes
/// the customer, as it always does in memory; a failure of the repository is
/// handed on and changes nothing.
pub fn create_account<R: Create<Customer>>(repo: &mut R, customer: Customer) -> (done: Result<
    (),
    InterfaceError,
>)
    requires
        old(repo).ready(),
    ensures
        final(repo).ready(),
        done is Ok <==> old(repo).accepts(customer),
        done is Ok ==> final(repo).records() == stored_at(
            old(repo).records(),
            customer.uuid,
            customer,
        ),
        done is Err ==> final(repo).records() == old(repo).records(),
{
    repo.create(customer)
}

/// Authorize a transaction for a customer: the amount must be positive,
/// the repository must hold the customer, and the amount must not exceed
/// the customer's balance. Where the amount is not positive the repository
/// is not asked. This does not perform the transaction.
pub fn authorize_transaction<R: Get<Customer>>(repo: &R, uuid: u128, amount: i32) -> (done:
    Result<(), InterfaceError>)
    requires
        repo.ready(),
    ensures
        exists|answer: Result<Option<&Customer>, InterfaceError>|
            is_answer(answer, repo, uuid) && is_verdict(done, uuid, amount, answer),
        done is Ok ==> amount > 0 && (lookup(repo.records(), uuid) matches Some(customer)
            && amount <= customer.balance),
{
    match check_amount(amount) {
        Err(error) => {
            let ghost none: Result<Option<&Customer>, InterfaceError> = Err(error);
            assert(is_answer(none, repo, uuid) && is_verdict(Err(error), uuid, amount, none));
            Err(error)
        },
        Ok(_) => {
            let answer = repo.get(&uuid);
            let done = verdict(uuid, amount, answer);
            done
        },
    }
}

} // verus!
