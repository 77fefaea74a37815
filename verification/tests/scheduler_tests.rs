use typst_preprocess::config::{self, FieldConfig};
use typst_preprocess::preprocessor::{
    ConfigError, any_config_error, configure_jobs, get_preprocessor,
};
use typst_preprocess::scheduler::overall_success;

fn empty_query() -> config::Query {
    config::Query { selector: None, field: FieldConfig::Absent, one: None, inputs: vec![] }
}

fn job(name: &str, kind: &str) -> config::Job {
    config::Job {
        name: name.to_string(),
        kind: kind.to_string(),
        query: empty_query(),
        config: vec![],
    }
}

#[test]
fn overall_success_of_no_jobs() {
    assert!(overall_success(&vec![]));
}

#[test]
fn overall_success_when_every_job_succeeds() {
    assert!(overall_success(&vec![true, true, true]));
}

#[test]
fn one_failing_job_fails_the_run() {
    assert!(!overall_success(&vec![true, false, true]));
    assert!(!overall_success(&vec![false]));
}

#[test]
fn construction_is_attempted_for_every_job() {
    // one declaration with an unknown kind: its error is reported, the
    // well-formed declarations around it are still checked and construct
    let jobs = vec![job("first", "web-resource"), job("broken", "bogus"), job(
        "last",
        "web-resource",
    )];
    let results = configure_jobs(jobs);
    assert_eq!(results.len(), 3);
    assert!(results[0].is_ok());
    assert_eq!(
        *results[1].as_ref().unwrap_err(),
        ConfigError::UnknownKind { kind: "bogus".to_string() }
    );
    assert!(results[2].is_ok());
    assert!(any_config_error(&results));
}

#[test]
fn a_clean_batch_has_no_config_error() {
    let results = configure_jobs(vec![job("a", "web-resource"), job("b", "web-resource")]);
    assert!(!any_config_error(&results));
}

#[test]
fn construction_failure_aborts_before_anything_runs() {
    // the engine checks the whole batch first: with one bad declaration the
    // batch reports an error, and the runner never starts any job
    let results = configure_jobs(vec![job("good", "web-resource"), job("bad", "bogus")]);
    assert!(any_config_error(&results));
    let names: Vec<String> = results
        .iter()
        .filter_map(|r| r.as_ref().err())
        .map(|e| match e {
            ConfigError::UnknownKind { kind } => kind.clone(),
            _ => String::new(),
        })
        .collect();
    assert_eq!(names, vec!["bogus".to_string()]);
}

#[test]
fn single_kind_registry_accepts_only_its_name() {
    assert!(get_preprocessor(job("n", "web-resource")).is_ok());
    assert!(get_preprocessor(job("n", "Web-Resource")).is_err());
    assert!(get_preprocessor(job("n", "")).is_err());
}
