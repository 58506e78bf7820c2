//! Build-time helpers for an embedded firmware build system.
//!
//! The enclosing build orchestrator communicates with per-crate build
//! scripts through environment variables: the target triple, feature
//! flags, an optional board name, a comma-separated task list, and
//! configuration blobs encoded as TOML text.  This crate holds the logic
//! that interprets those values: constructing build-system directives,
//! classifying the target architecture, mapping task names to dense
//! integer identifiers, and parsing the configuration blobs.  Reading
//! the process environment and printing the directives is left to the
//! (unverified) caller; every function here works on plain values.

use vstd::prelude::*;

pub mod config;
pub mod features;
pub mod strutil;
pub mod target;
pub mod tasks;

pub use crate::config::{config, task_config, task_maybe_config, toml_from_env, toml_log_header};
pub use crate::features::feature_env_var;
pub use crate::target::{m_profile_directive, m_profile_of, target_board_directive, MProfile};
pub use crate::tasks::{task_ids, TaskIds};

verus! {

/// The value of one environment variable, as the caller observed it.
///
/// Mirrors the three outcomes of reading the process environment:
/// the variable is set to a UTF-8 value, set to a non-UTF-8 value,
/// or not set at all.
pub enum EnvValue {
    /// The variable is set and its value is valid UTF-8.
    Present(String),
    /// The variable is set but its value is not valid UTF-8.
    NotUnicode,
    /// The variable is not set.
    Absent,
}

/// The recoverable failures of this crate's accessors.  Each variant
/// carries the variable or task it concerns; `message` renders the
/// text a build script surfaces when it aborts on one of these.
#[derive(Debug)]
pub enum UtilError {
    /// The app-wide configuration variable is not set.
    MissingAppConfig,
    /// The task configuration variable is not set; carries the name of
    /// the task whose configuration was requested.
    MissingTaskConfig { task_name: String },
    /// The named environment variable is set to a non-UTF-8 value.
    EnvNotUnicode { var: String },
    /// The configuration text is malformed.
    Deserialize,
    /// A task name is not present in the task table.
    UnknownTask { name: String },
}

impl UtilError {
    /// The human-readable message for this error, naming the variable
    /// or task involved.
    pub fn message(&self) -> (r: String)
        ensures
            match self {
                UtilError::MissingAppConfig => r@ == "app.toml missing global config section [config]"@,
                UtilError::MissingTaskConfig { task_name } => r@
                    == "app.toml missing task config section [tasks."@ + task_name@ + ".config]"@,
                UtilError::EnvNotUnicode { var } => r@ == "accessing environment variable "@
                    + var@,
                UtilError::Deserialize => r@ == "deserializing configuration"@,
                UtilError::UnknownTask { name } => r@ == "unknown task `"@ + name@ + "`"@,
            },
    {
        match self {
            UtilError::MissingAppConfig => {
                let mut s = String::new();
                s.append("app.toml missing global config section [config]");
                s
            },
            UtilError::MissingTaskConfig { task_name } => {
                let mut s = String::new();
                s.append("app.toml missing task config section [tasks.");
                s.append(task_name.as_str());
                s.append(".config]");
                s
            },
            UtilError::EnvNotUnicode { var } => {
                let mut s = String::new();
                s.append("accessing environment variable ");
                s.append(var.as_str());
                s
            },
            UtilError::Deserialize => {
                let mut s = String::new();
                s.append("deserializing configuration");
                s
            },
            UtilError::UnknownTask { name } => {
                let mut s = String::new();
                s.append("unknown task `");
                s.append(name.as_str());
                s.append("`");
                s
            },
        }
    }
}

/// The directive that declares an environment variable as a rebuild
/// trigger: if the variable's value changes, the build is stale.
pub fn rerun_directive(key: &str) -> (r: String)
    ensures
        r@ == "cargo:rerun-if-env-changed="@ + key@,
{
    let mut s = String::new();
    s.append("cargo:rerun-if-env-changed=");
    s.append(key);
    s
}

} // verus!
