use kafka_benchmark::config::{ProducerScenario, ProducerType};

fn scenario_with_settings(settings: &[(&str, &str)]) -> ProducerScenario {
    ProducerScenario {
        repeat_times: 1,
        repeat_pause: 0,
        threads: 1,
        producer_type: ProducerType::BaseProducer,
        message_size: 10,
        message_count: 1,
        message_file: "payloads.cache".to_string(),
        topic: "bench".to_string(),
        producer_config: settings
            .iter()
            .map(|(k, v)| (k.to_string(), v.to_string()))
            .collect(),
    }
}

#[test]
fn client_config_forwards_the_settings_verbatim() {
    let scenario = scenario_with_settings(&[("bootstrap.servers", "localhost:9092"), ("acks", "1")]);
    let client_config = scenario.client_config();
    assert_eq!(client_config.get("bootstrap.servers"), Some("localhost:9092"));
    assert_eq!(client_config.get("acks"), Some("1"));
    assert_eq!(client_config.get("linger.ms"), None);
}

#[test]
fn client_config_takes_the_later_entry_on_a_repeated_key() {
    let scenario = scenario_with_settings(&[("acks", "0"), ("acks", "all")]);
    let client_config = scenario.client_config();
    assert_eq!(client_config.get("acks"), Some("all"));
}
