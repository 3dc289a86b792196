use kafka_benchmark::config::{
    BenchmarkFileConfig, ConfigError, ProducerBenchmark, ProducerScenario, ProducerType,
    ScenarioField, ScenarioFileConfig,
};

fn pairs(entries: &[(&str, &str)]) -> Vec<(String, String)> {
    entries.iter().map(|(k, v)| (k.to_string(), v.to_string())).collect()
}

fn full_default() -> ScenarioFileConfig {
    ScenarioFileConfig {
        repeat_times: Some(2),
        repeat_pause: Some(50),
        threads: Some(1),
        producer_type: Some(ProducerType::BaseProducer),
        message_size: Some(128),
        message_count: Some(10),
        message_file: Some("default.cache".to_string()),
        topic: Some("default-topic".to_string()),
        producer_config: Some(pairs(&[("bootstrap.servers", "localhost:9092")])),
    }
}

fn empty_override() -> ScenarioFileConfig {
    ScenarioFileConfig {
        repeat_times: None,
        repeat_pause: None,
        threads: None,
        producer_type: None,
        message_size: None,
        message_count: None,
        message_file: None,
        topic: None,
        producer_config: None,
    }
}

#[test]
fn resolve_takes_default_where_override_is_silent() {
    let resolved =
        ProducerScenario::from_file_config(&full_default(), empty_override()).unwrap();
    assert_eq!(resolved.repeat_times, 2);
    assert_eq!(resolved.repeat_pause, 50);
    assert_eq!(resolved.threads, 1);
    assert!(matches!(resolved.producer_type, ProducerType::BaseProducer));
    assert_eq!(resolved.message_size, 128);
    assert_eq!(resolved.message_count, 10);
    assert_eq!(resolved.message_file, "default.cache");
    assert_eq!(resolved.topic, "default-topic");
}

#[test]
fn resolve_prefers_override_values() {
    let mut over = empty_override();
    over.repeat_times = Some(7);
    over.topic = Some("override-topic".to_string());
    over.message_count = Some(3);
    let resolved = ProducerScenario::from_file_config(&full_default(), over).unwrap();
    assert_eq!(resolved.repeat_times, 7);
    assert_eq!(resolved.topic, "override-topic");
    assert_eq!(resolved.message_count, 3);
    // Fields the override left out still come from the default.
    assert_eq!(resolved.repeat_pause, 50);
    assert_eq!(resolved.message_file, "default.cache");
}

#[test]
fn resolve_empty_producer_config_rejected() {
    let mut default = full_default();
    default.producer_config = Some(Vec::new());
    let mut over = empty_override();
    over.producer_config = Some(Vec::new());
    let err = ProducerScenario::from_file_config(&default, over).unwrap_err();
    assert_eq!(err, ConfigError::EmptyProducerConfig);
}

#[test]
fn resolve_absent_producer_config_rejected() {
    let mut default = full_default();
    default.producer_config = None;
    let err = ProducerScenario::from_file_config(&default, empty_override()).unwrap_err();
    assert_eq!(err, ConfigError::EmptyProducerConfig);
}

#[test]
fn resolve_missing_topic_names_the_field() {
    let mut default = full_default();
    default.topic = None;
    let err = ProducerScenario::from_file_config(&default, empty_override()).unwrap_err();
    assert_eq!(err, ConfigError::MissingParameter(ScenarioField::Topic));
}

#[test]
fn resolve_missing_threads_names_the_field() {
    let mut default = full_default();
    default.threads = None;
    let err = ProducerScenario::from_file_config(&default, empty_override()).unwrap_err();
    assert_eq!(err, ConfigError::MissingParameter(ScenarioField::Threads));
}

#[test]
fn resolve_zero_threads_rejected() {
    let mut default = full_default();
    default.threads = Some(0);
    let err = ProducerScenario::from_file_config(&default, empty_override()).unwrap_err();
    assert_eq!(err, ConfigError::ZeroThreads);
}

#[test]
fn resolve_zero_threads_in_override_rejected() {
    let mut over = empty_override();
    over.threads = Some(0);
    let err = ProducerScenario::from_file_config(&full_default(), over).unwrap_err();
    assert_eq!(err, ConfigError::ZeroThreads);
}

#[test]
fn missing_field_reported_before_zero_threads() {
    let mut default = full_default();
    default.threads = Some(0);
    default.topic = None;
    let err = ProducerScenario::from_file_config(&default, empty_override()).unwrap_err();
    assert_eq!(err, ConfigError::MissingParameter(ScenarioField::Topic));
}

#[test]
fn producer_config_merge_is_union_with_override_winning() {
    let mut default = full_default();
    default.producer_config = Some(pairs(&[("a", "1"), ("b", "2")]));
    let mut over = empty_override();
    over.producer_config = Some(pairs(&[("b", "3"), ("c", "4")]));
    let resolved = ProducerScenario::from_file_config(&default, over).unwrap();
    assert_eq!(resolved.config_get(&"a".to_string()).unwrap(), "1");
    assert_eq!(resolved.config_get(&"b".to_string()).unwrap(), "3");
    assert_eq!(resolved.config_get(&"c".to_string()).unwrap(), "4");
    assert!(resolved.config_get(&"d".to_string()).is_none());
}

#[test]
fn benchmark_resolves_every_scenario() {
    let mut fast = empty_override();
    fast.repeat_times = Some(1);
    let mut wide = empty_override();
    wide.threads = Some(8);
    let cfg = BenchmarkFileConfig {
        default: full_default(),
        scenarios: vec![("fast".to_string(), fast), ("wide".to_string(), wide)],
    };
    let benchmark: ProducerBenchmark = ProducerBenchmark::from_file_config(cfg).unwrap();
    assert_eq!(benchmark.scenarios.len(), 2);
    assert_eq!(benchmark.scenarios[0].0, "fast");
    assert_eq!(benchmark.scenarios[0].1.repeat_times, 1);
    assert_eq!(benchmark.scenarios[0].1.threads, 1);
    assert_eq!(benchmark.scenarios[1].0, "wide");
    assert_eq!(benchmark.scenarios[1].1.threads, 8);
}

#[test]
fn benchmark_load_fails_fast_on_a_bad_scenario() {
    let mut default = full_default();
    default.message_size = None;
    let good = empty_override();
    let mut bad = empty_override();
    bad.topic = Some("t".to_string());
    // `message_size` is missing everywhere, so the whole load aborts.
    let mut good_sized = good;
    good_sized.message_size = Some(1);
    let cfg = BenchmarkFileConfig {
        default,
        scenarios: vec![("good".to_string(), good_sized), ("bad".to_string(), bad)],
    };
    let err = ProducerBenchmark::from_file_config(cfg).unwrap_err();
    assert_eq!(err, ConfigError::MissingParameter(ScenarioField::MessageSize));
}
