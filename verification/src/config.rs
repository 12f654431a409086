//! The configuration consumed by the broker client: broker address, optional
//! credentials, the configured amplifiers, and the notification topics.

use vstd::prelude::*;

verus! {

/// One configured amplifier: a display name and the topic prefix under which
/// its telemetry arrives. Prefixes are matched in configuration order, first
/// match wins.
pub struct AmplifierConfig {
    pub name: String,
    pub data_topic_prefix: String,
}

/// Mathematical image of an [`AmplifierConfig`].
pub ghost struct AmpView {
    pub name: Seq<char>,
    pub data_topic_prefix: Seq<char>,
}

impl View for AmplifierConfig {
    type V = AmpView;

    open spec fn view(&self) -> AmpView {
        AmpView { name: self.name@, data_topic_prefix: self.data_topic_prefix@ }
    }
}

/// The full configuration of the broker client.
pub struct Config {
    pub mqtt_broker: String,
    pub mqtt_port: u16,
    pub mqtt_username: Option<String>,
    pub mqtt_password: Option<String>,
    pub amplifiers: Vec<AmplifierConfig>,
    pub notification_topic: String,
    pub station_notification_topic_pattern: String,
}

/// Mathematical image of a [`Config`].
pub ghost struct ConfigView {
    pub mqtt_broker: Seq<char>,
    pub mqtt_port: u16,
    pub mqtt_username: Option<Seq<char>>,
    pub mqtt_password: Option<Seq<char>>,
    pub amplifiers: Seq<AmpView>,
    pub notification_topic: Seq<char>,
    pub station_notification_topic_pattern: Seq<char>,
}

impl View for Config {
    type V = ConfigView;

    open spec fn view(&self) -> ConfigView {
        ConfigView {
            mqtt_broker: self.mqtt_broker@,
            mqtt_port: self.mqtt_port,
            mqtt_username: self.mqtt_username.deep_view(),
            mqtt_password: self.mqtt_password.deep_view(),
            amplifiers: self.amplifiers@.map_values(|a: AmplifierConfig| a@),
            notification_topic: self.notification_topic@,
            station_notification_topic_pattern: self.station_notification_topic_pattern@,
        }
    }
}

/// The credentials a session is opened with: present exactly when the
/// configuration carries a non-empty username together with a password;
/// an absent or empty username means an anonymous connection.
pub open spec fn spec_credentials(c: ConfigView) -> Option<(Seq<char>, Seq<char>)> {
    match (c.mqtt_username, c.mqtt_password) {
        (Some(u), Some(p)) => if u.len() > 0 {
            Some((u, p))
        } else {
            None
        },
        _ => None,
    }
}

/// The username and password to apply to the session, if any.
pub fn credentials_for(config: &Config) -> (r: Option<(String, String)>)
    ensures
        r is Some <==> spec_credentials(config@) is Some,
        r matches Some(c) ==> spec_credentials(config@) == Some((c.0@, c.1@)),
{
    match (&config.mqtt_username, &config.mqtt_password) {
        (Some(u), Some(p)) => {
            if u.as_str().is_empty() {
                None
            } else {
                Some((u.clone(), p.clone()))
            }
        },
        _ => None,
    }
}

} // verus!
