//! Provisioning: the decisions that are taken while the cluster and its
//! databases are set up.

use crate::rds_client::{blank_request, RdsClient, StatementRequest, StatementRequestView};
use crate::text::{decimal, decimal_text};
use vstd::prelude::*;
use vstd::string::StringExecFns;

verus! {

/// What went wrong while the cluster was set up.
#[derive(Clone, Debug, PartialEq, Eq)]
pub enum AuroraError {
    /// The clusters could not be described; the service's words.
    DescribeClusters(String),
    /// An instance could not be deleted; the service's words.
    DeleteInstance(String),
    /// There is not exactly one cluster; the number found.
    InvalidNumberOfClusters(usize),
}

/// The text of an error.
pub open spec fn aurora_error_text(error: AuroraError) -> Seq<char> {
    match error {
        AuroraError::DescribeClusters(reason) => "Failed to describe clusters : "@ + reason@,
        AuroraError::DeleteInstance(reason) => "Failed to delete instance : "@ + reason@,
        AuroraError::InvalidNumberOfClusters(count) => "Number of clusters found: "@
            + decimal_text(count as int),
    }
}

impl AuroraError {
    /// The message that describes the error.
    pub fn message(&self) -> (text: String)
        ensures
            text@ == aurora_error_text(*self),
    {
        match self {
            AuroraError::DescribeClusters(reason) => String::from_str(
                "Failed to describe clusters : ",
            ).concat(reason.as_str()),
            AuroraError::DeleteInstance(reason) => String::from_str(
                "Failed to delete instance : ",
            ).concat(reason.as_str()),
            AuroraError::InvalidNumberOfClusters(count) => String::from_str(
                "Number of clusters found: ",
            ).concat(decimal(*count as i128).as_str()),
        }
    }
}

/// The cluster to work on: the only one. Any other number of clusters is
/// an error that names the number.
pub fn get_cluster<T>(clusters: Vec<T>) -> (found: Result<T, AuroraError>)
    ensures
        clusters@.len() == 1 ==> found == Ok::<T, AuroraError>(clusters@[0]),
        clusters@.len() != 1 ==> found == Err::<T, AuroraError>(
            AuroraError::InvalidNumberOfClusters(clusters@.len() as usize),
        ),
{
    let mut clusters = clusters;
    let nb_clusters = clusters.len();
    if nb_clusters > 1 || nb_clusters == 0 {
        return Err(AuroraError::InvalidNumberOfClusters(nb_clusters));
    }
    match clusters.pop() {
        Some(cluster) => Ok(cluster),
        None => Err(AuroraError::InvalidNumberOfClusters(nb_clusters)),
    }
}

/// The instances to delete when a cluster is reset: its members, in their
/// order; a cluster without a member list has none.
pub fn reset_cluster_instances(members: Option<Vec<String>>) -> (instances: Vec<String>)
    ensures
        instances@ == match members {
            Some(found) => found@,
            None => Seq::<String>::empty(),
        },
{
    match members {
        Some(members) => members,
        None => Vec::new(),
    }
}

/// The identifier of the database instance of a bank.
pub fn create_bank_db_instance(bank_name: &str) -> (identifier: String)
    ensures
        identifier@ == "db-instance-"@ + bank_name@,
{
    let mut identifier = String::from_str("db-instance-");
    identifier.append(bank_name);
    identifier
}

/// The request that initiates an agent's own database: `CREATE DATABASE`
/// and the agent's name.
pub fn init_agent(client: &RdsClient, name: &str) -> (request: StatementRequest)
    ensures
        request@ == (StatementRequestView {
            sql: Some("CREATE DATABASE "@ + name@),
            ..blank_request(client@)
        }),
{
    let mut sql = String::from_str("CREATE DATABASE ");
    sql.append(name);
    client.execute_statement().sql(sql)
}

} // verus!
