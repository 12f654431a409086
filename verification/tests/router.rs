use amp_monitor::config::{AmplifierConfig, Config};
use amp_monitor::router::{
    event_name, process_incoming_message, route_message, DropReason, RouteOutcome,
};

fn config_with(amps: Vec<(&str, &str)>) -> Config {
    Config {
        mqtt_broker: "broker.local".to_string(),
        mqtt_port: 1883,
        mqtt_username: None,
        mqtt_password: None,
        amplifiers: amps
            .into_iter()
            .map(|(name, prefix)| AmplifierConfig {
                name: name.to_string(),
                data_topic_prefix: prefix.to_string(),
            })
            .collect(),
        notification_topic: "matrigs/0/n/alarm".to_string(),
        station_notification_topic_pattern: "matrigs/+/n/#".to_string(),
    }
}

fn amp1_config() -> Config {
    config_with(vec![("Amp1", "station1/amp/")])
}

#[test]
fn telemetry_message_emits_data_event() {
    let config = amp1_config();
    let r = route_message(&config, "station1/amp/power", b"150", 0);
    match r {
        RouteOutcome::Data(d) => {
            assert_eq!(d.amplifier_name, "Amp1");
            assert_eq!(d.metric, "power");
            assert_eq!(d.value, "150");
        }
        other => panic!("expected a data event, got {:?}", other),
    }
}

#[test]
fn notification_payload_gets_generated_id() {
    let config = amp1_config();
    let payload = r#"{"title":"High SWR","message":"Check antenna","type":"warning"}"#;
    let now: i64 = 1700000000123;
    let r = route_message(&config, "matrigs/0/n/alarm", payload.as_bytes(), now);
    match r {
        RouteOutcome::Notification(n) => {
            assert_eq!(n.id, "matrigs/0/n/alarm-1700000000123");
            assert_eq!(n.title, "High SWR");
            assert_eq!(n.message, "Check antenna");
            assert_eq!(n.notification_type, "warning");
            assert_eq!(n.duration, None);
        }
        other => panic!("expected a notification event, got {:?}", other),
    }
}

#[test]
fn notification_id_in_payload_is_overwritten() {
    let config = amp1_config();
    let payload = r#"{"id":"keep-me","title":"t","message":"m","type":"info"}"#;
    let r = route_message(&config, "matrigs/0/n/alarm", payload.as_bytes(), 42);
    match r {
        RouteOutcome::Notification(n) => assert_eq!(n.id, "matrigs/0/n/alarm-42"),
        other => panic!("expected a notification event, got {:?}", other),
    }
}

#[test]
fn notification_duration_is_forwarded() {
    let config = amp1_config();
    let payload = r#"{"title":"t","message":"m","type":"info","duration":5000}"#;
    let r = route_message(&config, "matrigs/0/n/alarm", payload.as_bytes(), 1);
    match r {
        RouteOutcome::Notification(n) => assert_eq!(n.duration, Some(5000)),
        other => panic!("expected a notification event, got {:?}", other),
    }
}

#[test]
fn notification_null_duration_means_none() {
    let config = amp1_config();
    let payload = r#"{"title":"t","message":"m","type":"info","duration":null}"#;
    let r = route_message(&config, "matrigs/0/n/alarm", payload.as_bytes(), 1);
    match r {
        RouteOutcome::Notification(n) => assert_eq!(n.duration, None),
        other => panic!("expected a notification event, got {:?}", other),
    }
}

#[test]
fn null_payload_on_notification_topic_emits_nothing() {
    let config = amp1_config();
    let r = route_message(&config, "matrigs/0/n/alarm", b"null", 7);
    assert!(matches!(r, RouteOutcome::Dropped(DropReason::RetainedClear)));
    assert_eq!(event_name(&r), None);
}

#[test]
fn whitespace_padded_null_payload_emits_nothing() {
    let config = amp1_config();
    let r = route_message(&config, "matrigs/0/n/alarm", b"  null\n", 7);
    assert!(matches!(r, RouteOutcome::Dropped(DropReason::RetainedClear)));
}

#[test]
fn unparsable_notification_payload_is_dropped() {
    let config = amp1_config();
    let r = route_message(&config, "matrigs/0/n/alarm", b"{\"title\":5}", 7);
    assert!(matches!(
        r,
        RouteOutcome::Dropped(DropReason::UnparsableNotification)
    ));
    let r2 = route_message(&config, "matrigs/0/n/alarm", b"[1,2]", 7);
    assert!(matches!(
        r2,
        RouteOutcome::Dropped(DropReason::UnparsableNotification)
    ));
    let r3 = route_message(&config, "matrigs/0/n/alarm", b"{\"title\":\"t\"}", 7);
    assert!(matches!(
        r3,
        RouteOutcome::Dropped(DropReason::UnparsableNotification)
    ));
}

#[test]
fn unknown_metric_suffix_emits_nothing() {
    let config = amp1_config();
    let r = route_message(&config, "station1/amp/voltage", b"12", 0);
    assert!(matches!(r, RouteOutcome::Dropped(DropReason::UnknownMetric)));
    assert_eq!(event_name(&r), None);
}

#[test]
fn unmatched_topic_is_dropped_silently() {
    let config = amp1_config();
    let r = route_message(&config, "elsewhere/power", b"12", 0);
    assert!(matches!(
        r,
        RouteOutcome::Dropped(DropReason::NoAmplifierMatch)
    ));
}

#[test]
fn malformed_payload_bytes_emit_nothing() {
    let config = amp1_config();
    let r = route_message(&config, "station1/amp/power", &[0xff, 0xfe, 0x80], 0);
    assert!(matches!(r, RouteOutcome::Dropped(DropReason::InvalidUtf8)));
    assert_eq!(event_name(&r), None);
}

#[test]
fn first_declared_amplifier_wins_on_overlapping_prefixes() {
    let config = config_with(vec![("First", "station1/amp/"), ("Second", "station1/")]);
    let r = route_message(&config, "station1/amp/power", b"1", 0);
    match r {
        RouteOutcome::Data(d) => assert_eq!(d.amplifier_name, "First"),
        other => panic!("expected a data event, got {:?}", other),
    }

    let reversed = config_with(vec![("Second", "station1/"), ("First", "station1/amp/")]);
    let r2 = route_message(&reversed, "station1/amp/power", b"1", 0);
    assert!(matches!(
        r2,
        RouteOutcome::Dropped(DropReason::UnknownMetric)
    ));
}

#[test]
fn multibyte_text_value_is_forwarded_unchanged() {
    let config = amp1_config();
    let r = route_message(&config, "station1/amp/temp", "45.5 \u{00b0}C".as_bytes(), 0);
    match r {
        RouteOutcome::Data(d) => assert_eq!(d.value, "45.5 \u{00b0}C"),
        other => panic!("expected a data event, got {:?}", other),
    }
}

#[test]
fn marker_anywhere_in_topic_classifies_as_notification() {
    let config = amp1_config();
    let r = route_message(&config, "matrigs/7/n/station", b"null", 7);
    assert!(matches!(r, RouteOutcome::Dropped(DropReason::RetainedClear)));
}

#[test]
fn event_names_match_the_two_channels() {
    let config = amp1_config();
    let data = route_message(&config, "station1/amp/swr", b"1.2", 0);
    assert_eq!(event_name(&data), Some("mqtt-data"));
    let payload = r#"{"title":"t","message":"m","type":"info"}"#;
    let notif = route_message(&config, "matrigs/0/n/alarm", payload.as_bytes(), 0);
    assert_eq!(event_name(&notif), Some("mqtt-notification"));
}

#[test]
fn process_incoming_message_routes_like_route_message() {
    let config = amp1_config();
    let r = process_incoming_message(&config, "station1/amp/current", b"3.4");
    match r {
        RouteOutcome::Data(d) => {
            assert_eq!(d.amplifier_name, "Amp1");
            assert_eq!(d.metric, "current");
            assert_eq!(d.value, "3.4");
        }
        other => panic!("expected a data event, got {:?}", other),
    }
}
