//! Configuration retrieval: the app-wide and per-task configuration
//! blobs arrive as TOML text inside environment variables.
//!
//! The text is parsed into a generic TOML value by the `toml` crate;
//! the caller then picks out of that value only the sub-structure it
//! cares about, so a blob may hold unrelated sections for other
//! callers.  Reading the variables themselves, and echoing the raw
//! text to the build log, is the caller's side; every function here
//! takes the observed variable value as an argument.

use vstd::prelude::*;
use vstd::string::*;
use crate::{EnvValue, UtilError};

verus! {

#[verifier::external_type_specification]
#[verifier::external_body]
pub struct ExTomlValue(toml::Value);

#[verifier::external_type_specification]
#[verifier::external_body]
pub struct ExTomlDeError(toml::de::Error);

/// Whether a text is a well-formed TOML document.  Parsing is a
/// function of the text alone.
pub uninterp spec fn toml_ok(s: Seq<char>) -> bool;

/// Relies on `toml::from_str`: parses the text as a TOML document
/// into a generic TOML value, succeeding exactly on well-formed
/// documents.
#[verifier::external_body]
fn parse_toml(s: &str) -> (r: Result<toml::Value, toml::de::Error>)
    ensures
        r is Ok <==> toml_ok(s@),
{
    toml::from_str(s)
}

/// Parse the contents of an environment variable as toml.
///
/// Returns:
///
/// - `Ok(Some(x))` if the variable is set and its contents parse.
/// - `Ok(None)` if the variable is not set.
/// - `Err(e)` if parsing failed or the variable did not contain UTF-8.
pub fn toml_from_env(var: &str, value: &EnvValue) -> (r: Result<Option<toml::Value>, UtilError>)
    ensures
        match value {
            EnvValue::Absent => r matches Ok(None),
            EnvValue::NotUnicode => (r matches Err(e) && e matches UtilError::EnvNotUnicode {
                var: v,
            } && v@ == var@),
            EnvValue::Present(s) => if toml_ok(s@) {
                r matches Ok(Some(_))
            } else {
                (r matches Err(e) && e is Deserialize)
            },
        },
{
    match value {
        EnvValue::Absent => Ok(None),
        EnvValue::NotUnicode => Err(
            UtilError::EnvNotUnicode { var: String::from_str(var) },
        ),
        EnvValue::Present(s) => match parse_toml(s.as_str()) {
            Ok(v) => Ok(Some(v)),
            Err(_) => Err(UtilError::Deserialize),
        },
    }
}

/// The header line echoed to the build log before the raw contents of
/// a configuration variable.
pub fn toml_log_header(var: &str) -> (r: String)
    ensures
        r@ == "--- toml for $"@ + var@ + " ---"@,
{
    let mut s = String::new();
    s.append("--- toml for $");
    s.append(var);
    s.append(" ---");
    s
}

/// Pulls the app-wide configuration for purposes of a build task,
/// from the observed value of `HUBRIS_APP_CONFIG`.  This fails if the
/// app-wide configuration doesn't exist or can't parse.  The returned
/// TOML value carries the whole blob; a caller reads only the parts
/// it cares about, so unrelated sections are ignored rather than
/// rejected.
pub fn config(app_config: &EnvValue) -> (r: Result<toml::Value, UtilError>)
    ensures
        match app_config {
            EnvValue::Absent => (r matches Err(e) && e is MissingAppConfig),
            EnvValue::NotUnicode => (r matches Err(e) && e matches UtilError::EnvNotUnicode {
                var: v,
            } && v@ == "HUBRIS_APP_CONFIG"@),
            EnvValue::Present(s) => if toml_ok(s@) {
                r is Ok
            } else {
                (r matches Err(e) && e is Deserialize)
            },
        },
{
    match toml_from_env("HUBRIS_APP_CONFIG", app_config) {
        Ok(Some(v)) => Ok(v),
        Ok(None) => Err(UtilError::MissingAppConfig),
        Err(e) => Err(e),
    }
}

/// Pulls the task configuration from the observed value of
/// `HUBRIS_TASK_CONFIG`; an absent variable fails with an error
/// naming the task.  See `config` for more details.
pub fn task_config(task_name: &str, value: &EnvValue) -> (r: Result<toml::Value, UtilError>)
    ensures
        match value {
            EnvValue::Absent => (r matches Err(e) && e matches UtilError::MissingTaskConfig {
                task_name: t,
            } && t@ == task_name@),
            EnvValue::NotUnicode => (r matches Err(e) && e matches UtilError::EnvNotUnicode {
                var: v,
            } && v@ == "HUBRIS_TASK_CONFIG"@),
            EnvValue::Present(s) => if toml_ok(s@) {
                r is Ok
            } else {
                (r matches Err(e) && e is Deserialize)
            },
        },
{
    match task_maybe_config(value) {
        Ok(Some(v)) => Ok(v),
        Ok(None) => Err(
            UtilError::MissingTaskConfig { task_name: String::from_str(task_name) },
        ),
        Err(e) => Err(e),
    }
}

/// Pulls the task configuration, or `None` if the configuration is
/// not provided.
pub fn task_maybe_config(value: &EnvValue) -> (r: Result<Option<toml::Value>, UtilError>)
    ensures
        match value {
            EnvValue::Absent => r matches Ok(None),
            EnvValue::NotUnicode => (r matches Err(e) && e matches UtilError::EnvNotUnicode {
                var: v,
            } && v@ == "HUBRIS_TASK_CONFIG"@),
            EnvValue::Present(s) => if toml_ok(s@) {
                r matches Ok(Some(_))
            } else {
                (r matches Err(e) && e is Deserialize)
            },
        },
{
    toml_from_env("HUBRIS_TASK_CONFIG", value)
}

} // verus!
