//! The request handlers of the bank, as decisions: from what a request
//! holds to the reply that goes back.
//!
//! Reading a request and writing a reply are the caller's part. A handler
//! decides in two steps, before and after the repository is asked.

use crate::domain::{balance_of, is_answer};
use crate::error::InterfaceError;
use crate::ident::{parse_uuid, uuid_of_text};
use crate::models::Customer;
use crate::ports::{Create, Get};
use crate::store::stored_at;
use vstd::prelude::*;
use vstd::string::StringExecFns;

verus! {

/// The method of a request.
#[derive(Clone, Copy, Debug, PartialEq, Eq, Structural)]
pub enum Method {
    Get,
    Post,
    /// Any other method.
    Other,
}

/// The reply to a request.
#[derive(Debug, PartialEq, Eq)]
pub enum Reply<'a> {
    /// The customer that was asked for, with status 200.
    Found(&'a Customer),
    /// A status and a message.
    Message { status: u16, message: String },
}

/// A reply, with texts as character sequences.
pub enum ReplyView {
    Found(Customer),
    Message { status: u16, message: Seq<char> },
}

impl<'a> View for Reply<'a> {
    type V = ReplyView;

    open spec fn view(&self) -> ReplyView {
        match self {
            Reply::Found(customer) => ReplyView::Found(**customer),
            Reply::Message { status, message } => ReplyView::Message {
                status: *status,
                message: message@,
            },
        }
    }
}

/// An HTTP response with a JSON payload.
#[derive(Clone, Debug, PartialEq, Eq)]
pub struct Response {
    pub status: u16,
    pub content_type: String,
    pub body: String,
}

/// The reply that refuses a method.
pub open spec fn method_not_allowed() -> ReplyView {
    ReplyView::Message { status: 405, message: "Method Not Allowed"@ }
}

/// The reply to a request for a balance that names no customer.
pub open spec fn missing_uuid() -> ReplyView {
    ReplyView::Message { status: 400, message: "Missing 'uuid' parameter in path"@ }
}

/// The reply to a request for a balance whose identifier is none.
pub open spec fn invalid_uuid() -> ReplyView {
    ReplyView::Message { status: 400, message: "Invalid UUID format"@ }
}

/// What the first step of the balance handler decides: the identifier to
/// ask the repository for, or the reply that ends the request.
pub open spec fn balance_request(method: Method, uuid: Option<Seq<char>>) -> Result<
    u128,
    ReplyView,
> {
    if method != Method::Get {
        Err(method_not_allowed())
    } else {
        match uuid {
            None => Err(missing_uuid()),
            Some(text) => match uuid_of_text(text) {
                Some(id) => Ok(id),
                None => Err(invalid_uuid()),
            },
        }
    }
}

/// What the second step of the balance handler decides: the reply to the
/// outcome of the balance lookup.
pub open spec fn balance_reply(found: Result<Option<&Customer>, InterfaceError>) -> ReplyView {
    match found {
        Ok(Some(customer)) => ReplyView::Found(*customer),
        Ok(None) => ReplyView::Message { status: 404, message: "Customer not found"@ },
        Err(_) => ReplyView::Message { status: 500, message: "Error fetching the customer"@ },
    }
}

/// The reply to a request for a balance, given what the repository
/// answered: the customer where it holds one, else a failure. A customer
/// that the repository does not hold is a missing item, and so a failure.
pub open spec fn balance_outcome(answer: Result<Option<&Customer>, InterfaceError>) -> ReplyView {
    match answer {
        Ok(Some(customer)) => ReplyView::Found(*customer),
        _ => ReplyView::Message { status: 500, message: "Error fetching the customer"@ },
    }
}

/// What the first step of the account handler decides: the customer to
/// create, or the reply that ends the request.
pub open spec fn account_request(
    method: Method,
    payload: Result<Option<Customer>, String>,
) -> Result<Customer, ReplyView> {
    if method != Method::Post {
        Err(method_not_allowed())
    } else {
        match payload {
            Ok(Some(customer)) => Ok(customer),
            Ok(None) => Err(
                ReplyView::Message {
                    status: 400,
                    message: "Missing account details in request body"@,
                },
            ),
            Err(_) => Err(
                ReplyView::Message {
                    status: 400,
                    message: "Failed to parse account detials from request body"@,
                },
            ),
        }
    }
}

/// What the second step of the account handler decides: the reply to the
/// outcome of the creation.
pub open spec fn account_reply(done: Result<(), InterfaceError>) -> ReplyView {
    match done {
        Ok(_) => ReplyView::Message { status: 201, message: "Account created"@ },
        Err(_) => ReplyView::Message { status: 500, message: "Failed to create account"@ },
    }
}

/// A reply of a status and a message.
fn message(status: u16, text: &str) -> (reply: Reply<'static>)
    ensures
        reply@ == (ReplyView::Message { status, message: text@ }),
{
    Reply::Message { status, message: String::from_str(text) }
}

impl<'a> Reply<'a> {
    /// The status of the reply.
    pub fn status(&self) -> (status: u16)
        ensures
            status == match self@ {
                ReplyView::Found(_) => 200u16,
                ReplyView::Message { status, .. } => status,
            },
    {
        match self {
            Reply::Found(_) => 200,
            Reply::Message { status, .. } => *status,
        }
    }
}

/// The first step of the balance handler: the method must be GET, the path
/// must name a customer, and the name must be an identifier.
pub fn get_balance_request(method: Method, uuid: Option<&str>) -> (step: Result<
    u128,
    Reply<'static>,
>)
    ensures
        match step {
            Ok(id) => balance_request(
                method,
                match uuid {
                    Some(text) => Some(text@),
                    None => None,
                },
            ) == Ok::<u128, ReplyView>(id),
            Err(reply) => balance_request(
                method,
                match uuid {
                    Some(text) => Some(text@),
                    None => None,
                },
            ) == Err::<u128, ReplyView>(reply@),
        },
{
    // Ensure GET method
    if method != Method::Get {
        return Err(message(405, "Method Not Allowed"));
    }
    // If the request names no customer, we reply with a 400 Bad Request.
    let uuid = match uuid {
        Some(uuid) => uuid,
        None => {
            return Err(message(400, "Missing 'uuid' parameter in path"));
        },
    };
    // Validate the UUID format
    match parse_uuid(uuid) {
        Some(id) => Ok(id),
        None => Err(message(400, "Invalid UUID format")),
    }
}

/// The second step of the balance handler: the reply to the outcome of the
/// balance lookup.
pub fn get_balance_reply<'a>(found: Result<Option<&'a Customer>, InterfaceError>) -> (reply:
    Reply<'a>)
    ensures
        reply@ == balance_reply(found),
{
    match found {
        // Found
        Ok(Some(customer)) => Reply::Found(customer),
        // Doesn't exist
        Ok(None) => message(404, "Customer not found"),
        // Error
        Err(_) => message(500, "Error fetching the customer"),
    }
}

/// Get the balance of a given customer.
pub fn get_balance<'a, R: Get<Customer>>(repo: &'a R, method: Method, uuid: Option<&str>) -> (reply:
    Reply<'a>)
    requires
        repo.ready(),
    ensures
        match balance_request(
            method,
            match uuid {
                Some(text) => Some(text@),
                None => None,
            },
        ) {
            Err(refusal) => reply@ == refusal,
            Ok(id) => exists|answer: Result<Option<&Customer>, InterfaceError>|
                is_answer(answer, repo, id) && reply@ == balance_outcome(answer),
        },
{
    match get_balance_request(method, uuid) {
        Err(reply) => reply,
        Ok(id) => {
            let answer = repo.get(&id);
            let found = balance_of(id, answer);
            let reply = get_balance_reply(found);
            assert(is_answer(answer, repo, id) && reply@ == balance_outcome(answer));
            reply
        },
    }
}

/// The first step of the account handler: the method must be POST and the
/// body must hold a customer.
pub fn create_account_request(method: Method, payload: Result<Option<Customer>, String>) -> (step:
    Result<Customer, Reply<'static>>)
    ensures
        match step {
            Ok(customer) => account_request(method, payload) == Ok::<Customer, ReplyView>(
                customer,
            ),
            Err(reply) => account_request(method, payload) == Err::<Customer, ReplyView>(reply@),
        },
{
    // Ensure POST method
    if method != Method::Post {
        return Err(message(405, "Method Not Allowed"));
    }
    // Read customer from request
    match payload {
        Ok(Some(customer)) => Ok(customer),
        Ok(None) => Err(message(400, "Missing account details in request body")),
        Err(_) => Err(message(400, "Failed to parse account detials from request body")),
    }
}

/// The second step of the account handler: the reply to the outcome of the
/// creation.
pub fn create_account_reply(done: Result<(), InterfaceError>) -> (reply: Reply<'static>)
    ensures
        reply@ == account_reply(done),
{
    match done {
        Ok(_) => message(201, "Account created"),
        Err(_) => message(500, "Failed to create account"),
    }
}

/// Create a customer account.
pub fn create_account<R: Create<Customer>>(
    repo: &mut R,
    method: Method,
    payload: Result<Option<Customer>, String>,
) -> (reply: Reply<'static>)
    requires
        old(repo).ready(),
    ensures
        final(repo).ready(),
        match account_request(method, payload) {
            Err(refusal) => reply@ == refusal && final(repo).records() == old(repo).records(),
            Ok(customer) => {
                ||| reply@ == account_reply(Ok(())) && final(repo).records() == stored_at(
                    old(repo).records(),
                    customer.uuid,
                    customer,
                )
                ||| reply@ == (ReplyView::Message {
                    status: 500,
                    message: "Failed to create account"@,
                }) && final(repo).records() == old(repo).records()
            },
        },
{
    match create_account_request(method, payload) {
        Err(reply) => reply,
        Ok(customer) => {
            let done = repo.create(customer);
            create_account_reply(done)
        },
    }
}

/// HTTP response with a JSON payload.
pub fn response(status_code: u16, body: String) -> (response: Response)
    ensures
        response.status == status_code,
        response.content_type@ == "application/json"@,
        response.body@ == body@,
{
    Response { status: status_code, content_type: String::from_str("application/json"), body }
}

} // verus!
