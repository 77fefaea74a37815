//! Job declarations as read from the project manifest.
//!
//! The manifest file itself is parsed by an outside collaborator; that
//! collaborator hands the engine plain values: strings, booleans, and tables
//! of raw [`ConfigValue`]s. The decoding rules that matter to the engine,
//! such as the three-state `field` entry of a query table, are defined and
//! verified here.

use vstd::prelude::*;

verus! {

/// A raw configuration value out of the manifest. The engine only ever reads
/// booleans and strings out of kind-specific configuration; any other shape
/// (a number, an array, a nested table) is carried as [`ConfigValue::Other`]
/// and rejected by the decoders that encounter it.
#[derive(Debug, Clone, PartialEq, Eq)]
pub enum ConfigValue {
    /// A boolean entry.
    Bool(bool),
    /// A string entry.
    Str(String),
    /// An entry of any other shape.
    Other,
}

/// The `field` entry of a query table is three-state: not specified at all
/// (the job kind's default applies), explicitly disabled with `false`, or
/// explicitly set to a field name. The three cases stay distinguishable all
/// the way through defaulting.
#[derive(Debug, Clone, PartialEq, Eq)]
pub enum FieldConfig {
    /// The entry was absent: the kind's default applies.
    Absent,
    /// The entry was explicitly `false`: no field is selected.
    Disabled,
    /// The entry named a field.
    Named(String),
}

/// User-supplied query configuration. Every entry is optional; job kinds
/// supply their own defaults through a query builder.
#[derive(Debug, Clone, PartialEq, Eq)]
pub struct Query {
    /// The selector to be queried, e.g. `<label>`.
    pub selector: Option<String>,
    /// The field to be queried from the selector.
    pub field: FieldConfig,
    /// Whether exactly one query result is expected.
    pub one: Option<bool>,
    /// Additional inputs handed to the queried document, in manifest order.
    pub inputs: Vec<(String, String)>,
}

/// A single preprocessing job declaration.
#[derive(Debug, Clone, PartialEq, Eq)]
pub struct Job {
    /// The job's name, for diagnostics only.
    pub name: String,
    /// Identifier of the preprocessor kind that should run the job.
    pub kind: String,
    /// The query the preprocessor runs.
    pub query: Query,
    /// All remaining entries of the job table, owned by the selected kind.
    pub config: Vec<(String, ConfigValue)>,
}

/// The complete engine configuration: the declared jobs, in manifest order.
#[derive(Debug, Clone, PartialEq, Eq)]
pub struct Config {
    /// The preprocessing jobs to execute.
    pub jobs: Vec<Job>,
}

/// Error for a query table whose `field` entry is neither `false` nor a
/// string.
#[derive(Debug, Clone, PartialEq, Eq)]
pub enum FieldError {
    /// The entry was `true` or of an unsupported shape.
    NotFalseOrString,
}

/// What [`deserialize_field`] returns for a given raw entry.
pub open spec fn field_config_of(raw: Option<ConfigValue>) -> Result<FieldConfig, FieldError> {
    match raw {
        None => Ok(FieldConfig::Absent),
        Some(ConfigValue::Bool(b)) => if b {
            Err(FieldError::NotFalseOrString)
        } else {
            Ok(FieldConfig::Disabled)
        },
        Some(ConfigValue::Str(s)) => Ok(FieldConfig::Named(s)),
        Some(ConfigValue::Other) => Err(FieldError::NotFalseOrString),
    }
}

/// Decodes the `field` entry of a query table: absent means "use the kind's
/// default", `false` disables field selection, a string names the field, and
/// everything else is rejected.
pub fn deserialize_field(raw: Option<ConfigValue>) -> (r: Result<FieldConfig, FieldError>)
    ensures
        r == field_config_of(raw),
{
    match raw {
        None => Ok(FieldConfig::Absent),
        Some(ConfigValue::Bool(b)) => {
            if b {
                Err(FieldError::NotFalseOrString)
            } else {
                Ok(FieldConfig::Disabled)
            }
        },
        Some(ConfigValue::Str(s)) => Ok(FieldConfig::Named(s)),
        Some(ConfigValue::Other) => Err(FieldError::NotFalseOrString),
    }
}

} // verus!
