//! Deployment environments and the plain settings records.

use std::collections::HashMap;
use crate::rds_client::RdsSettings;
use crate::text::same_text;
use vstd::prelude::*;
use vstd::string::StringExecFns;

verus! {

/// Valid environments for this application.
#[derive(Clone, Copy, Debug, PartialEq, Eq, Structural)]
pub enum Environment {
    Local,
    Test,
    Production,
}

/// The lower-case name of an environment, as a sequence of characters.
pub open spec fn environment_name(env: Environment) -> Seq<char> {
    match env {
        Environment::Local => "local"@,
        Environment::Test => "test"@,
        Environment::Production => "production"@,
    }
}

impl Environment {
    /// The name under which the environment's configuration file is looked up.
    pub fn as_str(&self) -> (name: &'static str)
        ensures
            name@ == environment_name(*self),
    {
        match self {
            Environment::Local => "local",
            Environment::Test => "test",
            Environment::Production => "production",
        }
    }
}

/// The lower-case form of a text, as `str::to_lowercase` gives it.
pub uninterp spec fn lowercase_of(text: Seq<char>) -> Seq<char>;

/// The lower-case form of a text, by `str::to_lowercase` of the standard
/// library. The contract gives the result a name, [`lowercase_of`], and
/// claims only that it depends on the text alone.
#[verifier::external_body]
fn to_lowercase(text: &str) -> (lower: String)
    ensures
        lower@ == lowercase_of(text@),
{
    text.to_lowercase()
}

/// The environment that a lower-case name stands for, if any.
pub open spec fn environment_of(name: Seq<char>) -> Option<Environment> {
    if name == "local"@ {
        Some(Environment::Local)
    } else if name == "test"@ {
        Some(Environment::Test)
    } else if name == "production"@ {
        Some(Environment::Production)
    } else {
        None
    }
}

/// The complaint about a name that stands for no environment.
pub open spec fn unknown_environment(name: Seq<char>) -> Seq<char> {
    "Unknown environment "@ + name + ". Please use 'local', 'test', or 'production'."@
}

/// `parsed` is the reading of a lower-case name as an environment.
pub open spec fn is_environment(parsed: Result<Environment, String>, name: Seq<char>) -> bool {
    match environment_of(name) {
        Some(environment) => parsed matches Ok(found) && found == environment,
        None => parsed matches Err(complaint) && complaint@ == unknown_environment(name),
    }
}

/// The name of the environment that is assumed where none is given.
pub open spec fn default_environment() -> Seq<char> {
    "local"@
}

/// A variable of the process environment that is to be set, and its value.
#[derive(Clone, Debug, PartialEq, Eq)]
pub struct Preset {
    pub name: String,
    pub value: String,
}

/// The presets of an environment, given which of the two variables are
/// set already: outside production a backtrace of `1` and a log level of
/// `trace`, each only where the variable is not set; in production nothing.
pub open spec fn presets_of(
    environment: Environment,
    backtrace_set: bool,
    log_set: bool,
) -> Seq<(Seq<char>, Seq<char>)> {
    if environment == Environment::Production {
        Seq::empty()
    } else {
        (if backtrace_set {
            Seq::<(Seq<char>, Seq<char>)>::empty()
        } else {
            seq![("RUST_LIB_BACKTRACE"@, "1"@)]
        }) + (if log_set {
            Seq::<(Seq<char>, Seq<char>)>::empty()
        } else {
            seq![("RUST_LOG"@, "trace"@)]
        })
    }
}

/// The presets, with texts as character sequences.
pub open spec fn preset_views(presets: Seq<Preset>) -> Seq<(Seq<char>, Seq<char>)> {
    Seq::new(presets.len(), |i: int| (presets[i].name@, presets[i].value@))
}

impl Environment {
    /// The environment that a lower-case name stands for.
    pub fn from_lowercase(name: &str) -> (parsed: Result<Environment, String>)
        ensures
            is_environment(parsed, name@),
    {
        if same_text(name, "local") {
            Ok(Environment::Local)
        } else if same_text(name, "test") {
            Ok(Environment::Test)
        } else if same_text(name, "production") {
            Ok(Environment::Production)
        } else {
            let mut complaint = String::from_str("Unknown environment ");
            complaint.append(name);
            complaint.append(". Please use 'local', 'test', or 'production'.");
            Err(complaint)
        }
    }

    /// The environment that a name stands for, whatever the case of its
    /// letters.
    pub fn try_from(value: String) -> (parsed: Result<Environment, String>)
        ensures
            is_environment(parsed, lowercase_of(value@)),
    {
        let lower = to_lowercase(value.as_str());
        Environment::from_lowercase(lower.as_str())
    }

    /// The variables to preset for this environment. The caller says which
    /// of `RUST_LIB_BACKTRACE` and `RUST_LOG` are set already.
    pub fn presets(&self, backtrace_set: bool, log_set: bool) -> (presets: Vec<Preset>)
        ensures
            preset_views(presets@) == presets_of(*self, backtrace_set, log_set),
    {
        let mut presets: Vec<Preset> = Vec::new();
        if !matches!(self, Environment::Production) {
            if !backtrace_set {
                presets.push(
                    Preset {
                        name: String::from_str("RUST_LIB_BACKTRACE"),
                        value: String::from_str("1"),
                    },
                );
            }
            if !log_set {
                presets.push(
                    Preset { name: String::from_str("RUST_LOG"), value: String::from_str("trace") },
                );
            }
        }
        presets
    }
}

/// Finds the environment from the value of `APP_ENVIRONMENT`, where the
/// variable is set, and says which variables to preset. Where the variable
/// is not set, the environment is `local`.
pub fn init_environment(app_environment: Option<String>, backtrace_set: bool, log_set: bool) -> (found:
    Result<(Environment, Vec<Preset>), String>)
    ensures
        match found {
            Ok((environment, presets)) => {
                &&& is_environment(
                    Ok(environment),
                    lowercase_of(
                        match app_environment {
                            Some(value) => value@,
                            None => default_environment(),
                        },
                    ),
                )
                &&& preset_views(presets@) == presets_of(environment, backtrace_set, log_set)
            },
            Err(complaint) => is_environment(
                Err(complaint),
                lowercase_of(
                    match app_environment {
                        Some(value) => value@,
                        None => default_environment(),
                    },
                ),
            ),
        },
{
    let value = match app_environment {
        Some(value) => value,
        None => String::from_str("local"),
    };
    match Environment::try_from(value) {
        Ok(environment) => {
            let presets = environment.presets(backtrace_set, log_set);
            Ok((environment, presets))
        },
        Err(complaint) => Err(complaint),
    }
}

/// The name of the configuration file of an environment.
pub fn environment_file(environment: &Environment) -> (file: String)
    ensures
        file@ == environment_name(*environment) + ".yaml"@,
{
    let mut file = String::from_str(environment.as_str());
    file.append(".yaml");
    file
}

/// Settings of one bank agent.
pub struct BankSettings {
    pub issuer_identification_numbers: HashMap<String, String>,
}

/// Settings of one card network.
pub struct NetworkSettings {
    pub major_industry_identifier: u8,
    pub issuer_identification_numbers: HashMap<String, String>,
}

/// Settings for the agents of the ecosystem: banks and networks, by name.
pub struct AgentSettings {
    pub bank: HashMap<String, BankSettings>,
    pub network: HashMap<String, NetworkSettings>,
}

/// Top level settings: the database to access and the agents of the
/// ecosystem.
pub struct Settings {
    pub rds: RdsSettings,
    pub agents: AgentSettings,
}

} // verus!
