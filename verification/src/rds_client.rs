//! The database client: where statements are sent, and as whom.
//!
//! The client holds the identity of a connection and prepares the requests
//! that go to the remote statement-execution service. Sending a request is
//! the caller's part. The credential stays a sealed handle throughout.

use crate::params::{parameter_views, SqlParameter, SqlParameterView};
use secrecy::{ExposeSecret, Secret};
use vstd::prelude::*;

verus! {

/// A sealed credential: a `secrecy::Secret` that holds its text. The text
/// is wiped from memory when the handle is dropped, and nothing prints it.
#[verifier::external_body]
pub struct SecretArn {
    inner: Secret<String>,
}

/// The text that a sealed credential holds.
pub uninterp spec fn secret_text(secret: SecretArn) -> Seq<char>;

/// Seals a text, by `Secret::new`: the handle holds the text.
#[verifier::external_body]
fn seal_secret(text: String) -> (secret: SecretArn)
    ensures
        secret_text(secret) == text@,
{
    SecretArn { inner: Secret::new(text) }
}

/// A second handle on the same credential, by `Secret::clone`: the copy
/// holds a clone of the text that the first handle holds.
#[verifier::external_body]
fn clone_secret(secret: &SecretArn) -> (copy: SecretArn)
    ensures
        secret_text(copy) == secret_text(*secret),
{
    SecretArn { inner: secret.inner.clone() }
}

/// The text behind the handle, by `ExposeSecret::expose_secret`.
#[verifier::external_body]
fn expose_secret(secret: &SecretArn) -> (text: &String)
    ensures
        text@ == secret_text(*secret),
{
    secret.inner.expose_secret()
}

impl SecretArn {
    /// Seals a credential.
    pub fn new(text: String) -> (secret: SecretArn)
        ensures
            secret_text(secret) == text@,
    {
        seal_secret(text)
    }

    /// Reads the credential. This is for the moment at which a request is
    /// sent, and for nothing else.
    pub fn expose(&self) -> (text: &str)
        ensures
            text@ == secret_text(*self),
    {
        expose_secret(self).as_str()
    }

    /// A second handle on the same credential.
    pub fn duplicate(&self) -> (copy: SecretArn)
        ensures
            secret_text(copy) == secret_text(*self),
    {
        clone_secret(self)
    }
}

/// Settings for the database client: the credential, the cluster and the
/// database to access.
pub struct RdsSettings {
    pub secretarn: SecretArn,
    pub clusterarn: String,
    pub dbinstance: String,
}

/// How the service is to format the rows that it returns.
#[derive(Clone, Copy, Debug, PartialEq, Eq, Structural)]
pub enum RecordsFormatType {
    /// As a JSON array of objects.
    Json,
    /// Not at all: rows come as lists of typed fields.
    Plain,
}

/// A request to the statement-execution service.
pub struct StatementRequest {
    /// The reference to the credential.
    pub secret_arn: SecretArn,
    /// The reference to the cluster.
    pub resource_arn: String,
    /// The name of the database.
    pub database: String,
    /// The text of the statement.
    pub sql: Option<String>,
    /// The parameters that are bound to the statement's placeholders.
    pub parameters: Option<Vec<SqlParameter>>,
    /// The format in which rows are asked for.
    pub format_records_as: Option<RecordsFormatType>,
}

/// A request, with texts as character sequences.
pub struct StatementRequestView {
    pub secret_arn: Seq<char>,
    pub resource_arn: Seq<char>,
    pub database: Seq<char>,
    pub sql: Option<Seq<char>>,
    pub parameters: Option<Seq<SqlParameterView>>,
    pub format_records_as: Option<RecordsFormatType>,
}

impl View for StatementRequest {
    type V = StatementRequestView;

    open spec fn view(&self) -> StatementRequestView {
        StatementRequestView {
            secret_arn: secret_text(self.secret_arn),
            resource_arn: self.resource_arn@,
            database: self.database@,
            sql: match self.sql {
                Some(text) => Some(text@),
                None => None,
            },
            parameters: match self.parameters {
                Some(params) => Some(parameter_views(params@)),
                None => None,
            },
            format_records_as: self.format_records_as,
        }
    }
}

impl StatementRequest {
    /// The request with `sql` as its statement.
    pub fn sql(self, sql: String) -> (request: StatementRequest)
        ensures
            request@ == (StatementRequestView { sql: Some(sql@), ..self@ }),
    {
        StatementRequest { sql: Some(sql), ..self }
    }

    /// The request with `parameters` as its parameters.
    pub fn set_parameters(self, parameters: Option<Vec<SqlParameter>>) -> (request:
        StatementRequest)
        ensures
            request@ == (StatementRequestView {
                parameters: match parameters {
                    Some(params) => Some(parameter_views(params@)),
                    None => None,
                },
                ..self@
            }),
    {
        StatementRequest { parameters, ..self }
    }

    /// The request with `format` as the format in which rows are asked for.
    pub fn format_records_as(self, format: RecordsFormatType) -> (request: StatementRequest)
        ensures
            request@ == (StatementRequestView { format_records_as: Some(format), ..self@ }),
    {
        StatementRequest { format_records_as: Some(format), ..self }
    }
}

/// The identity of a connection to the remote database.
pub struct RdsClient {
    secret_arn: SecretArn,
    cluster_arn: String,
    db_instance: String,
}

/// The identity of a connection, with texts as character sequences.
pub struct RdsClientView {
    pub secret_arn: Seq<char>,
    pub cluster_arn: Seq<char>,
    pub db_instance: Seq<char>,
}

impl View for RdsClient {
    type V = RdsClientView;

    closed spec fn view(&self) -> RdsClientView {
        RdsClientView {
            secret_arn: secret_text(self.secret_arn),
            cluster_arn: self.cluster_arn@,
            db_instance: self.db_instance@,
        }
    }
}

/// The request that a client starts every statement from: its identity,
/// and nothing else yet.
pub open spec fn blank_request(client: RdsClientView) -> StatementRequestView {
    StatementRequestView {
        secret_arn: client.secret_arn,
        resource_arn: client.cluster_arn,
        database: client.db_instance,
        sql: None,
        parameters: None,
        format_records_as: None,
    }
}

impl RdsClient {
    /// The client for the connection that the settings describe.
    pub fn new(settings: &RdsSettings) -> (client: Self)
        ensures
            client@ == (RdsClientView {
                secret_arn: secret_text(settings.secretarn),
                cluster_arn: settings.clusterarn@,
                db_instance: settings.dbinstance@,
            }),
    {
        RdsClient {
            secret_arn: clone_secret(&settings.secretarn),
            cluster_arn: settings.clusterarn.clone(),
            db_instance: settings.dbinstance.clone(),
        }
    }

    /// Starts a request: one that carries the identity of the connection.
    pub fn execute_statement(&self) -> (request: StatementRequest)
        ensures
            request@ == blank_request(self@),
    {
        StatementRequest {
            secret_arn: clone_secret(&self.secret_arn),
            resource_arn: self.cluster_arn.clone(),
            database: self.db_instance.clone(),
            sql: None,
            parameters: None,
            format_records_as: None,
        }
    }
}

} // verus!
