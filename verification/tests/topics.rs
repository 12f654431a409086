use amp_monitor::config::{AmplifierConfig, Config};
use amp_monitor::topics::build_topics;

fn two_amp_config() -> Config {
    Config {
        mqtt_broker: "broker.local".to_string(),
        mqtt_port: 1883,
        mqtt_username: None,
        mqtt_password: None,
        amplifiers: vec![
            AmplifierConfig {
                name: "Amp1".to_string(),
                data_topic_prefix: "station1/amp/".to_string(),
            },
            AmplifierConfig {
                name: "Amp2".to_string(),
                data_topic_prefix: "station2/amp/".to_string(),
            },
        ],
        notification_topic: "matrigs/0/n/alarm".to_string(),
        station_notification_topic_pattern: "matrigs/+/n/#".to_string(),
    }
}

#[test]
fn build_topics_yields_expected_ordered_list() {
    let config = two_amp_config();
    let topics = build_topics(&config);
    let expected = vec![
        "station1/amp/power",
        "station1/amp/temp",
        "station1/amp/swr",
        "station1/amp/current",
        "station2/amp/power",
        "station2/amp/temp",
        "station2/amp/swr",
        "station2/amp/current",
        "matrigs/0/n/alarm",
        "matrigs/+/n/#",
    ];
    assert_eq!(topics.len(), expected.len());
    for (got, want) in topics.iter().zip(expected.iter()) {
        assert_eq!(got, want);
    }
}

#[test]
fn build_topics_is_deterministic_and_idempotent() {
    let config = two_amp_config();
    let first = build_topics(&config);
    let second = build_topics(&config);
    let third = build_topics(&config);
    assert_eq!(first, second);
    assert_eq!(second, third);
}

#[test]
fn build_topics_without_amplifiers_keeps_notification_topics() {
    let mut config = two_amp_config();
    config.amplifiers = vec![];
    let topics = build_topics(&config);
    assert_eq!(topics.len(), 2);
    assert_eq!(topics[0], "matrigs/0/n/alarm");
    assert_eq!(topics[1], "matrigs/+/n/#");
}
