use beamium_config::{compile_metric_filters, compile_selector, load_layers, ConfigError};

fn load_one(text: &str) -> Result<beamium_config::Config, ConfigError> {
    load_layers(&vec![text.to_string()], "beamium")
}

#[test]
fn metric_filter_applies_after_the_leading_token() {
    let filter = compile_metric_filters(&vec!["cpu\\..*".to_string()]).unwrap();
    // The leading whitespace-delimited token is captured and skipped; the
    // user pattern describes what follows it.
    assert!(filter.matches("1234567890// cpu.load 42"));
    assert!(!filter.matches("1234567890// mem.free 42"));
    // A subject with no token before the name does not reach the pattern.
    assert!(!filter.matches("cpu.load 1 2 3"));
    assert!(!filter.matches("mem.free 1 2 3"));
}

#[test]
fn metric_filter_accepts_any_alternative() {
    let filter =
        compile_metric_filters(&vec!["cpu\\..*".to_string(), "mem\\..*".to_string()]).unwrap();
    assert!(filter.matches("ts cpu.load 1 2 3"));
    assert!(filter.matches("ts mem.free 1 2 3"));
    assert!(!filter.matches("ts disk.used 1 2 3"));
}

#[test]
fn selector_is_anchored_at_the_start_only() {
    let selector = compile_selector("foo").unwrap();
    assert!(selector.matches("foobar"));
    assert!(selector.matches("foo"));
    assert!(!selector.matches("xfoo"));
}

#[test]
fn invalid_patterns_are_refused() {
    assert!(compile_selector("(").is_none());
    assert!(compile_metric_filters(&vec!["(".to_string()]).is_none());
}

#[test]
fn source_metrics_filter_from_a_document() {
    let config = load_one(
        "sources:\n  app1:\n    url: u\n    period: 1\n    metrics:\n      - 'cpu\\..*'\n",
    )
    .unwrap();
    let filter = config.sources[0].metrics.as_ref().unwrap();
    assert!(filter.matches("1234567890// cpu.load 42"));
    assert!(!filter.matches("1234567890// mem.free 42"));
}

#[test]
fn empty_metrics_list_means_no_filter() {
    let config = load_one(
        "sources:\n  app1:\n    url: u\n    period: 1\n    metrics: []\n",
    )
    .unwrap();
    assert!(config.sources[0].metrics.is_none());
}

#[test]
fn invalid_metric_pattern_names_the_entry() {
    let err = load_one(
        "sources:\n  app1:\n    url: u\n    period: 1\n    metrics:\n      - '('\n",
    )
    .unwrap_err();
    match err {
        ConfigError::Regex(m) => assert_eq!(m, "sources.app1.metrics is not a valid pattern"),
        other => panic!("unexpected error {:?}", other),
    }
}

#[test]
fn sink_selector_from_a_document() {
    let config = load_one(
        "sinks:\n  w:\n    url: u\n    token: t\n    selector: foo\n",
    )
    .unwrap();
    let selector = config.sinks[0].selector.as_ref().unwrap();
    assert!(selector.matches("foobar"));
    assert!(!selector.matches("xfoo"));
}

#[test]
fn invalid_selector_names_the_entry() {
    let err = load_one("sinks:\n  w:\n    url: u\n    token: t\n    selector: '('\n")
        .unwrap_err();
    match err {
        ConfigError::Regex(m) => assert_eq!(m, "sinks.w.selector is not a valid pattern"),
        other => panic!("unexpected error {:?}", other),
    }
}
