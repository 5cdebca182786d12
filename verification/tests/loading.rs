use beamium_config::{load_layers, load_str, ConfigError, LogLevel, SourceFormat};

fn load_one(text: &str) -> Result<beamium_config::Config, ConfigError> {
    load_layers(&vec![text.to_string()], "beamium")
}

#[test]
fn empty_layers_give_exact_defaults() {
    let config = load_layers(&Vec::new(), "beamium").unwrap();
    assert_eq!(config.sources.len(), 0);
    assert_eq!(config.sinks.len(), 0);
    assert_eq!(config.labels.len(), 0);
    assert_eq!(config.parameters.scan_period, 1000);
    assert_eq!(config.parameters.sink_dir, "sinks");
    assert_eq!(config.parameters.source_dir, "sources");
    assert_eq!(config.parameters.batch_size, 200000);
    assert_eq!(config.parameters.batch_count, 250);
    assert_eq!(config.parameters.log_file, "beamium.log");
    assert!(config.parameters.log_level == LogLevel::Info);
    assert_eq!(config.parameters.timeout, 300);
}

#[test]
fn source_without_format_is_prometheus() {
    let config = load_one(
        "sources:\n  app1:\n    url: http://127.0.0.1:9100/metrics\n    period: 1000\n",
    )
    .unwrap();
    assert_eq!(config.sources.len(), 1);
    assert_eq!(config.sources[0].name, "app1");
    assert_eq!(config.sources[0].url, "http://127.0.0.1:9100/metrics");
    assert_eq!(config.sources[0].period, 1000);
    assert!(config.sources[0].format == SourceFormat::Prometheus);
    assert!(config.sources[0].metrics.is_none());
}

#[test]
fn source_formats_are_the_two_exposition_names() {
    let config = load_one(
        "sources:\n  s:\n    url: u\n    period: 1\n    format: sensision\n",
    )
    .unwrap();
    assert!(config.sources[0].format == SourceFormat::Sensision);
    let err = load_one(
        "sources:\n  s:\n    url: u\n    period: 1\n    format: graphite\n",
    )
    .unwrap_err();
    match err {
        ConfigError::Format(m) => {
            assert_eq!(m, "sources.s.format should be 'prometheus' or 'sensision'")
        }
        other => panic!("unexpected error {:?}", other),
    }
}

#[test]
fn sink_defaults_for_ttl_size_and_token_header() {
    let config = load_one(
        "sinks:\n  warp:\n    url: https://warp.example.net/api/v0/update\n    token: abcd\n",
    )
    .unwrap();
    assert_eq!(config.sinks.len(), 1);
    assert_eq!(config.sinks[0].name, "warp");
    assert_eq!(config.sinks[0].token, "abcd");
    assert_eq!(config.sinks[0].token_header, "X-Warp10-Token");
    assert_eq!(config.sinks[0].ttl, 3600);
    assert_eq!(config.sinks[0].size, 1073741824);
    assert!(config.sinks[0].selector.is_none());
}

#[test]
fn sink_explicit_fields_overwrite_defaults() {
    let config = load_one(
        "sinks:\n  warp:\n    url: u\n    token: t\n    token-header: X-Custom\n    ttl: 60\n    size: 1024\n",
    )
    .unwrap();
    assert_eq!(config.sinks[0].token_header, "X-Custom");
    assert_eq!(config.sinks[0].ttl, 60);
    assert_eq!(config.sinks[0].size, 1024);
}

#[test]
fn two_layers_keep_both_sources_with_same_name() {
    let layer = "sources:\n  app1:\n    url: u\n    period: 1000\n".to_string();
    let config = load_layers(&vec![layer.clone(), layer], "beamium").unwrap();
    assert_eq!(config.sources.len(), 2);
    assert_eq!(config.sources[0].name, "app1");
    assert_eq!(config.sources[1].name, "app1");
}

#[test]
fn second_layer_batch_size_wins() {
    let config = load_layers(
        &vec![
            "parameters:\n  batch-size: 111\n".to_string(),
            "parameters:\n  batch-size: 222\n".to_string(),
        ],
        "beamium",
    )
    .unwrap();
    assert_eq!(config.parameters.batch_size, 222);
}

#[test]
fn later_label_wins_on_shared_key() {
    let config = load_layers(
        &vec![
            "labels:\n  dc: gra\n  rack: r1\n".to_string(),
            "labels:\n  dc: rbx\n".to_string(),
        ],
        "beamium",
    )
    .unwrap();
    assert_eq!(config.labels.len(), 2);
    assert_eq!(config.label("dc").unwrap(), "rbx");
    assert_eq!(config.label("rack").unwrap(), "r1");
    assert!(config.label("absent").is_none());
}

#[test]
fn log_level_zero_is_most_severe() {
    let config = load_one("parameters:\n  log-level: 0\n").unwrap();
    assert!(config.parameters.log_level == LogLevel::Critical);
    let config = load_one("parameters:\n  log-level: 5\n").unwrap();
    assert!(config.parameters.log_level == LogLevel::Trace);
}

#[test]
fn log_level_out_of_range_is_an_error() {
    let err = load_one("parameters:\n  log-level: 6\n").unwrap_err();
    match err {
        ConfigError::Format(m) => assert_eq!(m, "parameters.log-level is invalid"),
        other => panic!("unexpected error {:?}", other),
    }
}

#[test]
fn negative_period_names_the_offending_path() {
    let err = load_one("sources:\n  app1:\n    url: u\n    period: -1\n").unwrap_err();
    match err {
        ConfigError::Format(m) => assert_eq!(m, "sources.app1.period is invalid"),
        other => panic!("unexpected error {:?}", other),
    }
}

#[test]
fn period_too_wide_for_the_target_names_the_offending_path() {
    let err = load_one(
        "sources:\n  app1:\n    url: u\n    period: 99999999999999999999999999\n",
    )
    .unwrap_err();
    match err {
        ConfigError::Format(m) => {
            assert_eq!(m, "sources.app1.period is required and should be a number")
        }
        other => panic!("unexpected error {:?}", other),
    }
}

#[test]
fn missing_required_fields_name_the_offending_path() {
    let err = load_one("sources:\n  app1:\n    period: 1\n").unwrap_err();
    match err {
        ConfigError::Format(m) => {
            assert_eq!(m, "sources.app1.url is required and should be a string")
        }
        other => panic!("unexpected error {:?}", other),
    }
    let err = load_one("sinks:\n  w:\n    url: u\n").unwrap_err();
    match err {
        ConfigError::Format(m) => {
            assert_eq!(m, "sinks.w.token is required and should be a string")
        }
        other => panic!("unexpected error {:?}", other),
    }
}

#[test]
fn sources_section_must_be_a_map() {
    let err = load_one("sources:\n  - a\n  - b\n").unwrap_err();
    match err {
        ConfigError::Format(m) => assert_eq!(m, "sources should be a map"),
        other => panic!("unexpected error {:?}", other),
    }
}

#[test]
fn yaml_syntax_error_is_reported_as_yaml() {
    let err = load_one("sources: [unclosed\n  bad").unwrap_err();
    assert!(matches!(err, ConfigError::Yaml(_)));
}

#[test]
fn multiple_documents_in_one_text_all_apply() {
    let config = load_one(
        "sources:\n  a:\n    url: u\n    period: 1\n---\nsinks:\n  w:\n    url: u\n    token: t\n",
    )
    .unwrap();
    assert_eq!(config.sources.len(), 1);
    assert_eq!(config.sinks.len(), 1);
}

#[test]
fn load_str_extends_an_existing_configuration() {
    let mut config = beamium_config::default_config("beamium");
    load_str("sources:\n  a:\n    url: u\n    period: 1\n", &mut config).unwrap();
    load_str("sources:\n  b:\n    url: v\n    period: 2\n", &mut config).unwrap();
    assert_eq!(config.sources.len(), 2);
    assert_eq!(config.sources[0].name, "a");
    assert_eq!(config.sources[1].name, "b");
}

#[test]
fn failing_document_leaves_the_configuration_unchanged() {
    let mut config = beamium_config::default_config("beamium");
    let err = load_str(
        "sources:\n  a:\n    url: u\n    period: 1\nsinks:\n  w:\n    url: u\n",
        &mut config,
    )
    .unwrap_err();
    assert!(matches!(err, ConfigError::Format(_)));
    assert_eq!(config.sources.len(), 0);
    assert_eq!(config.sinks.len(), 0);
}

#[test]
fn documents_preceding_a_failure_stay_applied() {
    let mut config = beamium_config::default_config("beamium");
    let err = load_str(
        "sources:\n  a:\n    url: u\n    period: 1\n---\nsinks:\n  w:\n    url: u\n",
        &mut config,
    )
    .unwrap_err();
    assert!(matches!(err, ConfigError::Format(_)));
    assert_eq!(config.sources.len(), 1);
    assert_eq!(config.sinks.len(), 0);
}

#[test]
fn first_error_aborts_the_load() {
    let err = load_layers(
        &vec![
            "parameters:\n  batch-size: true\n".to_string(),
            "parameters:\n  batch-size: 7\n".to_string(),
        ],
        "beamium",
    )
    .unwrap_err();
    match err {
        ConfigError::Format(m) => assert_eq!(m, "parameters.batch-size should be a number"),
        other => panic!("unexpected error {:?}", other),
    }
}

#[test]
fn parameters_overwrite_every_scalar_field() {
    let config = load_one(
        "parameters:\n  source-dir: src\n  sink-dir: snk\n  scan-period: 7\n  batch-size: 8\n  batch-count: 9\n  log-file: x.log\n  log-level: 4\n  timeout: 11\n",
    )
    .unwrap();
    assert_eq!(config.parameters.source_dir, "src");
    assert_eq!(config.parameters.sink_dir, "snk");
    assert_eq!(config.parameters.scan_period, 7);
    assert_eq!(config.parameters.batch_size, 8);
    assert_eq!(config.parameters.batch_count, 9);
    assert_eq!(config.parameters.log_file, "x.log");
    assert!(config.parameters.log_level == LogLevel::Debug);
    assert_eq!(config.parameters.timeout, 11);
}

#[test]
fn label_entries_must_be_strings() {
    let err = load_one("labels:\n  dc: 5\n").unwrap_err();
    match err {
        ConfigError::Format(m) => assert_eq!(m, "labels.dc value should be a string"),
        other => panic!("unexpected error {:?}", other),
    }
}

#[test]
fn error_message_accessor_returns_the_line() {
    let err = load_one("sources:\n  app1:\n    url: u\n    period: -1\n").unwrap_err();
    assert_eq!(err.message(), "sources.app1.period is invalid");
}
