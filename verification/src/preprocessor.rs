//! The preprocessor registry: maps a job's declared kind to the constructor
//! of that kind, which validates the job's configuration and produces a
//! runnable job instance. The set of kinds is closed; an unknown kind fails
//! at construction time, before anything runs.

use vstd::prelude::*;

use crate::config;
use crate::preprocessor::web_resource::{WebResource, WebResourceFactory};
use crate::query::QueryBuilderError;

pub mod web_resource;

verus! {

/// Error while constructing a job from its declaration. All jobs are
/// constructed before any runs; every construction error is reported and the
/// whole run aborts if any job has one.
#[derive(Debug, Clone, PartialEq, Eq)]
pub enum ConfigError {
    /// The declared kind matches no registered preprocessor.
    UnknownKind {
        /// The kind that was declared.
        kind: String,
    },
    /// The `overwrite` entry of a kind configuration was neither absent nor
    /// a boolean.
    InvalidOverwrite,
    /// The `index` entry of a kind configuration was neither absent nor a
    /// boolean nor a string.
    InvalidIndex,
    /// The `evict` entry of a kind configuration was neither absent nor a
    /// boolean.
    InvalidEvict,
    /// The kind's query builder could not resolve a required entry.
    Builder(QueryBuilderError),
    /// The kind only supports multi-row results, but `one` resolved to
    /// `true`.
    OneUnsupported,
}

/// A constructed job instance, tagged by kind. The registered kinds form a
/// closed set; `web-resource` is the only one.
#[derive(Debug, Clone, PartialEq, Eq)]
pub enum Preprocessor {
    /// A `web-resource` job.
    WebResource(WebResource),
}

impl Preprocessor {
    /// The job's name, for diagnostics.
    pub fn name(&self) -> (r: &String)
        ensures
            match self {
                Preprocessor::WebResource(w) => r@ == w.name@,
            },
    {
        match self {
            Preprocessor::WebResource(w) => &w.name,
        }
    }
}

/// Exactly when [`get_preprocessor`] returns `r` for the declaration `job`:
/// a `web-resource` job is handed to that kind's constructor, and any other
/// kind fails as unknown.
pub open spec fn get_preprocessor_post(
    job: config::Job,
    r: Result<Preprocessor, ConfigError>,
) -> bool {
    if job.kind@ == "web-resource"@ {
        match r {
            Ok(Preprocessor::WebResource(w)) => web_resource::configure_post(
                job.name,
                job.config@,
                job.query,
                Ok(w),
            ),
            Err(e) => web_resource::configure_post(job.name, job.config@, job.query, Err(e)),
        }
    } else {
        r == Err::<Preprocessor, ConfigError>(ConfigError::UnknownKind { kind: job.kind })
    }
}

/// Instantiates the preprocessor for one job declaration: looks the declared
/// kind up and delegates to that kind's constructor, which validates the
/// kind-specific configuration and builds the job's query. A kind matching
/// no registered preprocessor fails with [`ConfigError::UnknownKind`].
pub fn get_preprocessor(job: config::Job) -> (r: Result<Preprocessor, ConfigError>)
    ensures
        get_preprocessor_post(job, r),
{
    let web_resource_kind = "web-resource".to_owned();
    if job.kind == web_resource_kind {
        match WebResourceFactory::configure(job.name, job.config, job.query) {
            Ok(w) => Ok(Preprocessor::WebResource(w)),
            Err(e) => Err(e),
        }
    } else {
        Err(ConfigError::UnknownKind { kind: job.kind })
    }
}

/// Attempts construction of every declared job, in order, and reports one
/// outcome per declaration. Nothing is skipped: a failing declaration does
/// not keep later ones from being checked, so every configuration error of
/// a run is reported together.
pub fn configure_jobs(jobs: Vec<config::Job>) -> (r: Vec<Result<Preprocessor, ConfigError>>)
    ensures
        r@.len() == jobs@.len(),
        forall|i: int| 0 <= i < jobs@.len() ==> get_preprocessor_post(jobs@[i], #[trigger] r@[i]),
{
    let ghost declared = jobs@;
    let mut jobs = jobs;
    let mut out: Vec<Result<Preprocessor, ConfigError>> = Vec::new();
    while jobs.len() > 0
        invariant
            out@.len() + jobs@.len() == declared.len(),
            jobs@ == declared.subrange(out@.len() as int, declared.len() as int),
            forall|i: int| 0 <= i < out@.len() ==> get_preprocessor_post(
                declared[i],
                #[trigger] out@[i],
            ),
        decreases jobs@.len(),
    {
        proof {
            assert(jobs@[0] == declared[out@.len() as int]);
        }
        let job = jobs.remove(0);
        let built = get_preprocessor(job);
        out.push(built);
        proof {
            assert(jobs@ =~= declared.subrange(out@.len() as int, declared.len() as int));
        }
    }
    out
}

/// Whether any job of a batch failed to construct. The engine aborts before
/// running anything when this holds, after reporting every failure.
pub fn any_config_error(results: &Vec<Result<Preprocessor, ConfigError>>) -> (r: bool)
    ensures
        r == exists|i: int|
            0 <= i < results@.len() && (#[trigger] results@[i]) is Err,
{
    let mut i: usize = 0;
    while i < results.len()
        invariant
            0 <= i <= results@.len(),
            forall|j: int| 0 <= j < i ==> !((#[trigger] results@[j]) is Err),
        decreases results@.len() - i,
    {
        match &results[i] {
            Err(_) => {
                return true;
            },
            Ok(_) => {},
        }
        i += 1;
    }
    false
}

} // verus!
