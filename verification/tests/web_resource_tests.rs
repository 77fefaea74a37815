use typst_preprocess::config::{
    self, ConfigValue, FieldConfig, FieldError, deserialize_field,
};
use typst_preprocess::preprocessor::web_resource::{
    Manifest, Resource, SyncAction, SyncError, WebResourceFactory,
};
use typst_preprocess::preprocessor::{ConfigError, Preprocessor, get_preprocessor};

fn empty_query() -> config::Query {
    config::Query { selector: None, field: FieldConfig::Absent, one: None, inputs: vec![] }
}

#[test]
fn deserialize_field_absent_keeps_default_applicable() {
    assert_eq!(deserialize_field(None), Ok(FieldConfig::Absent));
}

#[test]
fn deserialize_field_false_disables() {
    assert_eq!(deserialize_field(Some(ConfigValue::Bool(false))), Ok(FieldConfig::Disabled));
}

#[test]
fn deserialize_field_string_names_the_field() {
    assert_eq!(
        deserialize_field(Some(ConfigValue::Str("value".to_string()))),
        Ok(FieldConfig::Named("value".to_string()))
    );
}

#[test]
fn deserialize_field_true_is_rejected() {
    assert_eq!(
        deserialize_field(Some(ConfigValue::Bool(true))),
        Err(FieldError::NotFalseOrString)
    );
}

#[test]
fn deserialize_field_other_shape_is_rejected() {
    assert_eq!(deserialize_field(Some(ConfigValue::Other)), Err(FieldError::NotFalseOrString));
}

#[test]
fn parse_config_defaults() {
    let m = WebResourceFactory::parse_config(&vec![]).unwrap();
    assert_eq!(m, Manifest { overwrite: false, index: None, evict: false });
}

#[test]
fn parse_config_reads_booleans() {
    let table = vec![
        ("overwrite".to_string(), ConfigValue::Bool(true)),
        ("evict".to_string(), ConfigValue::Bool(true)),
    ];
    let m = WebResourceFactory::parse_config(&table).unwrap();
    assert!(m.overwrite);
    assert!(m.evict);
    assert_eq!(m.index, None);
}

#[test]
fn parse_config_index_true_selects_default_file() {
    let table = vec![("index".to_string(), ConfigValue::Bool(true))];
    let m = WebResourceFactory::parse_config(&table).unwrap();
    assert_eq!(m.index, Some("web-resource-index.toml".to_string()));
}

#[test]
fn parse_config_index_false_disables() {
    let table = vec![("index".to_string(), ConfigValue::Bool(false))];
    let m = WebResourceFactory::parse_config(&table).unwrap();
    assert_eq!(m.index, None);
}

#[test]
fn parse_config_index_string_is_a_path() {
    let table = vec![("index".to_string(), ConfigValue::Str("my-index.toml".to_string()))];
    let m = WebResourceFactory::parse_config(&table).unwrap();
    assert_eq!(m.index, Some("my-index.toml".to_string()));
}

#[test]
fn parse_config_invalid_overwrite() {
    let table = vec![("overwrite".to_string(), ConfigValue::Str("yes".to_string()))];
    assert_eq!(WebResourceFactory::parse_config(&table), Err(ConfigError::InvalidOverwrite));
}

#[test]
fn parse_config_invalid_index() {
    let table = vec![("index".to_string(), ConfigValue::Other)];
    assert_eq!(WebResourceFactory::parse_config(&table), Err(ConfigError::InvalidIndex));
}

#[test]
fn parse_config_invalid_evict() {
    let table = vec![("evict".to_string(), ConfigValue::Str("no".to_string()))];
    assert_eq!(WebResourceFactory::parse_config(&table), Err(ConfigError::InvalidEvict));
}

#[test]
fn parse_config_ignores_unrelated_keys() {
    let table = vec![("something-else".to_string(), ConfigValue::Other)];
    let m = WebResourceFactory::parse_config(&table).unwrap();
    assert_eq!(m, Manifest { overwrite: false, index: None, evict: false });
}

#[test]
fn build_query_applies_kind_defaults() {
    let q = WebResourceFactory::build_query(empty_query()).unwrap();
    assert_eq!(q.selector, "<web-resource>".to_string());
    assert_eq!(q.field, Some("value".to_string()));
    assert!(!q.one);
}

#[test]
fn build_query_user_selector_wins() {
    let mut cfg = empty_query();
    cfg.selector = Some("<figure>".to_string());
    cfg.field = FieldConfig::Disabled;
    let q = WebResourceFactory::build_query(cfg).unwrap();
    assert_eq!(q.selector, "<figure>".to_string());
    assert_eq!(q.field, None);
}

#[test]
fn build_query_rejects_one() {
    let mut cfg = empty_query();
    cfg.one = Some(true);
    assert_eq!(WebResourceFactory::build_query(cfg), Err(ConfigError::OneUnsupported));
}

#[test]
fn configure_builds_an_instance() {
    let w = WebResourceFactory::configure(
        "images".to_string(),
        vec![("overwrite".to_string(), ConfigValue::Bool(true))],
        empty_query(),
    )
    .unwrap();
    assert_eq!(w.name, "images".to_string());
    assert!(w.config.overwrite);
    assert_eq!(w.query.selector, "<web-resource>".to_string());
    assert_eq!(w.name(), &"images".to_string());
}

#[test]
fn configure_reports_config_error_before_query_error() {
    let mut cfg = empty_query();
    cfg.one = Some(true);
    let r = WebResourceFactory::configure(
        "bad".to_string(),
        vec![("index".to_string(), ConfigValue::Other)],
        cfg,
    );
    assert_eq!(r, Err(ConfigError::InvalidIndex));
}

fn plain_manifest(overwrite: bool, index: Option<&str>) -> Manifest {
    Manifest { overwrite, index: index.map(|s| s.to_string()), evict: false }
}

fn resource() -> Resource {
    Resource { url: "https://x/a.png".to_string(), path: "assets/a.png".to_string() }
}

#[test]
fn sync_decision_missing_file_downloads() {
    let m = plain_manifest(false, None);
    assert_eq!(m.sync_decision(&resource(), true, false), Ok(SyncAction::Download));
}

#[test]
fn sync_decision_forced_overwrite_downloads() {
    let m = plain_manifest(true, None);
    assert_eq!(m.sync_decision(&resource(), true, true), Ok(SyncAction::Download));
}

#[test]
fn sync_decision_enabled_index_always_refreshes() {
    let m = plain_manifest(false, Some("web-resource-index.toml"));
    assert_eq!(m.sync_decision(&resource(), true, true), Ok(SyncAction::Download));
}

#[test]
fn sync_decision_existing_file_skips() {
    let m = plain_manifest(false, None);
    assert_eq!(m.sync_decision(&resource(), true, true), Ok(SyncAction::Skip));
}

#[test]
fn sync_decision_path_outside_root_fails_whatever_else_holds() {
    let m = plain_manifest(true, Some("web-resource-index.toml"));
    let expected = Err(SyncError::PathOutsideRoot { path: "assets/a.png".to_string() });
    assert_eq!(m.sync_decision(&resource(), false, false), expected);
    assert_eq!(m.sync_decision(&resource(), false, true), expected);
}

#[test]
fn sync_scenario_download_then_skip_then_overwrite() {
    // one declared resource, no index, no overwrite: the first run sees no
    // file and downloads; the second sees the file and skips; with
    // overwrite forced, the third downloads again
    let job = config::Job {
        name: "images".to_string(),
        kind: "web-resource".to_string(),
        query: empty_query(),
        config: vec![],
    };
    let Preprocessor::WebResource(w) = get_preprocessor(job).unwrap();
    let r = resource();
    assert_eq!(w.config.sync_decision(&r, true, false), Ok(SyncAction::Download));
    assert_eq!(w.config.sync_decision(&r, true, true), Ok(SyncAction::Skip));
    let forced = plain_manifest(true, None);
    assert_eq!(forced.sync_decision(&r, true, true), Ok(SyncAction::Download));
}

#[test]
fn resolve_index_path_disabled() {
    let m = plain_manifest(false, None);
    assert_eq!(m.resolve_index_path(&"proj".to_string()), None);
}

#[test]
fn resolve_index_path_is_a_sibling_of_the_manifest() {
    let m = plain_manifest(false, Some("web-resource-index.toml"));
    assert_eq!(
        m.resolve_index_path(&"proj".to_string()),
        Some("proj/web-resource-index.toml".to_string())
    );
}

#[test]
fn unknown_kind_fails_at_construction() {
    let job = config::Job {
        name: "broken".to_string(),
        kind: "bogus".to_string(),
        query: empty_query(),
        config: vec![],
    };
    let r = get_preprocessor(job);
    assert_eq!(r, Err(ConfigError::UnknownKind { kind: "bogus".to_string() }));
}

#[test]
fn explicit_query_settings_pass_construction() {
    let mut cfg = empty_query();
    cfg.field = FieldConfig::Named("data".to_string());
    cfg.one = Some(false);
    let job = config::Job {
        name: "ok".to_string(),
        kind: "web-resource".to_string(),
        query: cfg,
        config: vec![],
    };
    let Preprocessor::WebResource(w) = get_preprocessor(job).unwrap();
    assert_eq!(w.query.field, Some("data".to_string()));
}
