//! The message classifier and router: turns one raw `(topic, payload)` pair
//! into a typed event, or into a documented drop. A pure function of the
//! configuration, the message and the routing time; it keeps no state
//! between messages and never panics.

use vstd::prelude::*;
use vstd::string::StrSliceExecFns;
use vstd::string::StringExecFns;
use vstd::utf8::{decode_utf8, valid_utf8};
use crate::config::{AmpView, Config, ConfigView};
use crate::text::{
    contains_seq, contains_str, dec_int, has_prefix, i64_dec, starts_with_str, str_eq, trim_of,
    trim_str,
};

verus! {

/// Outbound telemetry datum: the amplifier's display name, the metric kind,
/// and the raw value text, forwarded without numeric coercion.
#[derive(Clone, Debug)]
pub struct MqttDataPayload {
    pub amplifier_name: String,
    pub metric: String,
    pub value: String,
}

/// Mathematical image of an [`MqttDataPayload`].
pub ghost struct DataView {
    pub amplifier_name: Seq<char>,
    pub metric: Seq<char>,
    pub value: Seq<char>,
}

impl View for MqttDataPayload {
    type V = DataView;

    open spec fn view(&self) -> DataView {
        DataView {
            amplifier_name: self.amplifier_name@,
            metric: self.metric@,
            value: self.value@,
        }
    }
}

/// Outbound notification event. The id is always generated by the router as
/// `"{topic}-{epochMillis}"`, whatever the incoming payload carried.
#[derive(Clone, Debug)]
pub struct MqttNotificationPayload {
    pub id: String,
    pub title: String,
    pub message: String,
    pub notification_type: String,
    pub duration: Option<u64>,
}

/// Mathematical image of an [`MqttNotificationPayload`].
pub ghost struct NotificationView {
    pub id: Seq<char>,
    pub title: Seq<char>,
    pub message: Seq<char>,
    pub notification_type: Seq<char>,
    pub duration: Option<u64>,
}

impl View for MqttNotificationPayload {
    type V = NotificationView;

    open spec fn view(&self) -> NotificationView {
        NotificationView {
            id: self.id@,
            title: self.title@,
            message: self.message@,
            notification_type: self.notification_type@,
            duration: self.duration,
        }
    }
}

/// The fields of a payload that parsed as the notification shape: `title`,
/// `message` and `type` strings, an optional unsigned `duration`, and an
/// optional `id` (which the router discards and regenerates).
pub struct NotificationParts {
    pub id: Option<String>,
    pub title: String,
    pub message: String,
    pub notification_type: String,
    pub duration: Option<u64>,
}

/// Mathematical image of a [`NotificationParts`].
pub ghost struct PartsView {
    pub id: Option<Seq<char>>,
    pub title: Seq<char>,
    pub message: Seq<char>,
    pub notification_type: Seq<char>,
    pub duration: Option<u64>,
}

impl View for NotificationParts {
    type V = PartsView;

    open spec fn view(&self) -> PartsView {
        PartsView {
            id: self.id.deep_view(),
            title: self.title@,
            message: self.message@,
            notification_type: self.notification_type@,
            duration: self.duration,
        }
    }
}

/// Why a message produced no event.
#[derive(Clone, Copy, Debug, PartialEq, Eq, Structural)]
pub enum DropReason {
    /// The payload bytes were not valid UTF-8.
    InvalidUtf8,
    /// A notification-topic payload trimming to the null token: a retained
    /// message is being cleared.
    RetainedClear,
    /// A notification-topic payload that did not parse as the notification
    /// shape.
    UnparsableNotification,
    /// No configured amplifier prefix matches the topic.
    NoAmplifierMatch,
    /// The topic suffix is not one of the recognized metric kinds.
    UnknownMetric,
}

/// What the router did with one message.
#[derive(Clone, Debug)]
pub enum RouteOutcome {
    /// Emit a telemetry event.
    Data(MqttDataPayload),
    /// Emit a notification event.
    Notification(MqttNotificationPayload),
    /// Emit nothing.
    Dropped(DropReason),
}

/// Mathematical image of a [`RouteOutcome`].
pub ghost enum RouteModel {
    Data(DataView),
    Notification(NotificationView),
    Dropped(DropReason),
}

impl View for RouteOutcome {
    type V = RouteModel;

    open spec fn view(&self) -> RouteModel {
        match self {
            RouteOutcome::Data(d) => RouteModel::Data(d@),
            RouteOutcome::Notification(n) => RouteModel::Notification(n@),
            RouteOutcome::Dropped(r) => RouteModel::Dropped(*r),
        }
    }
}

/// What serde_json's parse of the notification shape returns for a given
/// text: a function of the text alone.
pub uninterp spec fn notif_parse(s: Seq<char>) -> Option<PartsView>;

/// Relies on String::from_utf8: it succeeds exactly on valid UTF-8 input and
/// returns its decoding.
#[verifier::external_body]
fn decode_payload(bytes: &[u8]) -> (r: Option<String>)
    ensures
        r is Some <==> valid_utf8(bytes@),
        r matches Some(s) ==> s@ == decode_utf8(bytes@),
{
    String::from_utf8(bytes.to_vec()).ok()
}

/// Relies on serde_json::from_str and serde_json::Value's accessors: whether
/// a text parses as the notification shape, and the fields extracted from
/// it, depend on the text alone.
#[verifier::external_body]
fn parse_notification(s: &str) -> (r: Option<NotificationParts>)
    ensures
        r is Some <==> notif_parse(s@) is Some,
        r matches Some(p) ==> notif_parse(s@) == Some(p@),
{
    let v: serde_json::Value = serde_json::from_str(s).ok()?;
    let title = v.get("title")?.as_str()?.to_string();
    let message = v.get("message")?.as_str()?.to_string();
    let notification_type = v.get("type")?.as_str()?.to_string();
    let duration = match v.get("duration") {
        None => None,
        Some(d) => if d.is_null() { None } else { Some(d.as_u64()?) },
    };
    let id = match v.get("id") {
        None => None,
        Some(x) => if x.is_null() { None } else { Some(x.as_str()?.to_string()) },
    };
    Some(NotificationParts { id, title, message, notification_type, duration })
}

/// Relies on chrono's `Utc::now().timestamp_millis()`: the current time as
/// milliseconds since the Unix epoch. Nothing is promised of the clock.
#[verifier::external_body]
fn now_millis() -> i64 {
    chrono::Utc::now().timestamp_millis()
}

/// A topic is a notification topic exactly when it contains the channel
/// marker `"/n/"`. The literal-prefix convention (`"matrigs/0/n/"`) is
/// subsumed: any topic with that prefix also contains the marker, as
/// [`lemma_literal_prefix_is_notification`] shows.
pub open spec fn spec_is_notification_topic(t: Seq<char>) -> bool {
    contains_seq(t, "/n/"@)
}

/// A topic with the literal notification prefix always satisfies the single
/// marker predicate, so the one predicate suffices.
pub proof fn lemma_literal_prefix_is_notification(t: Seq<char>)
    requires
        has_prefix(t, "matrigs/0/n/"@),
    ensures
        spec_is_notification_topic(t),
{
    reveal_strlit("matrigs/0/n/");
    reveal_strlit("/n/");
    let p = "matrigs/0/n/"@;
    assert(t.subrange(0, 12) == p);
    assert(t.subrange(9, 12) =~= "/n/"@) by {
        assert(t[9] == t.subrange(0, 12)[9]);
        assert(t[10] == t.subrange(0, 12)[10]);
        assert(t[11] == t.subrange(0, 12)[11]);
    }
    assert(crate::text::has_substring_at(t, "/n/"@, 9));
}

/// Classifies a topic as notification or telemetry.
pub fn is_notification_topic(topic: &str) -> (r: bool)
    ensures
        r == spec_is_notification_topic(topic@),
{
    contains_str(topic, "/n/")
}

/// The four recognized metric kinds, as topic suffixes.
pub open spec fn is_metric_name(m: Seq<char>) -> bool {
    m == "power"@ || m == "temp"@ || m == "swr"@ || m == "current"@
}

fn is_metric_str(m: &str) -> (r: bool)
    ensures
        r == is_metric_name(m@),
{
    str_eq(m, "power") || str_eq(m, "temp") || str_eq(m, "swr") || str_eq(m, "current")
}

/// The null-clear sentinel: a text that trims to the literal token `"null"`.
pub open spec fn is_null_text(s: Seq<char>) -> bool {
    trim_of(s) == "null"@
}

fn is_null_token(s: &str) -> (r: bool)
    ensures
        r == is_null_text(s@),
{
    let t = trim_str(s);
    str_eq(t.as_str(), "null")
}

/// The first configured amplifier, from index `i` on, whose topic prefix is
/// a literal prefix of the topic.
pub open spec fn first_match_from(amps: Seq<AmpView>, t: Seq<char>, i: int) -> Option<int>
    decreases amps.len() - i,
{
    if 0 <= i < amps.len() {
        if has_prefix(t, amps[i].data_topic_prefix) {
            Some(i)
        } else {
            first_match_from(amps, t, i + 1)
        }
    } else {
        None
    }
}

/// The first configured amplifier whose topic prefix matches: declaration
/// order decides, first match wins.
pub open spec fn first_match(amps: Seq<AmpView>, t: Seq<char>) -> Option<int> {
    first_match_from(amps, t, 0)
}

/// The generated notification id, `"{topic}-{epochMillis}"`.
pub open spec fn spec_notification_id(topic: Seq<char>, now: i64) -> Seq<char> {
    topic + "-"@ + dec_int(now as int)
}

/// Builds the generated notification id for a topic and a routing time.
pub fn notification_id(topic: &str, now: i64) -> (r: String)
    ensures
        r@ == spec_notification_id(topic@, now),
{
    let d = i64_dec(now);
    String::from_str(topic).concat("-").concat(d.as_str())
}

/// What routing a notification-topic text yields. A text trimming to the
/// null token signals that a retained message is being cleared, and yields
/// no event; otherwise a parsed payload becomes a notification event whose
/// id is regenerated from the topic and the routing time, and anything else
/// is dropped as unparsable.
pub open spec fn spec_route_notification(topic: Seq<char>, text: Seq<char>, now: i64) -> RouteModel {
    if is_null_text(text) {
        RouteModel::Dropped(DropReason::RetainedClear)
    } else {
        match notif_parse(text) {
            Some(p) => RouteModel::Notification(
                NotificationView {
                    id: spec_notification_id(topic, now),
                    title: p.title,
                    message: p.message,
                    notification_type: p.notification_type,
                    duration: p.duration,
                },
            ),
            None => RouteModel::Dropped(DropReason::UnparsableNotification),
        }
    }
}

/// What routing a telemetry-topic text yields: the first matching amplifier
/// claims the message; its prefix is stripped from the topic, and the
/// remainder must be one of the recognized metric kinds.
pub open spec fn spec_route_telemetry(
    amps: Seq<AmpView>,
    topic: Seq<char>,
    text: Seq<char>,
) -> RouteModel {
    match first_match(amps, topic) {
        Some(i) => {
            let metric = topic.skip(amps[i].data_topic_prefix.len() as int);
            if is_metric_name(metric) {
                RouteModel::Data(
                    DataView { amplifier_name: amps[i].name, metric, value: text },
                )
            } else {
                RouteModel::Dropped(DropReason::UnknownMetric)
            }
        },
        None => RouteModel::Dropped(DropReason::NoAmplifierMatch),
    }
}

/// What the router does with one raw message, as a function of the
/// configuration, the topic, the payload bytes and the routing time.
pub open spec fn spec_route(
    c: ConfigView,
    topic: Seq<char>,
    payload: Seq<u8>,
    now: i64,
) -> RouteModel {
    if !valid_utf8(payload) {
        RouteModel::Dropped(DropReason::InvalidUtf8)
    } else {
        let text = decode_utf8(payload);
        if spec_is_notification_topic(topic) {
            spec_route_notification(topic, text, now)
        } else {
            spec_route_telemetry(c.amplifiers, topic, text)
        }
    }
}

fn route_telemetry(config: &Config, topic: &str, value: String) -> (r: RouteOutcome)
    ensures
        r@ == spec_route_telemetry(config@.amplifiers, topic@, value@),
{
    let ghost amps = config@.amplifiers;
    let n = config.amplifiers.len();
    let mut i: usize = 0;
    while i < n
        invariant
            amps == config@.amplifiers,
            n == config.amplifiers.len(),
            n == amps.len(),
            i <= n,
            first_match(amps, topic@) == first_match_from(amps, topic@, i as int),
        decreases n - i,
    {
        let amp = &config.amplifiers[i];
        proof {
            assert(amps[i as int] == amp@);
        }
        if starts_with_str(topic, amp.data_topic_prefix.as_str()) {
            let plen = amp.data_topic_prefix.as_str().unicode_len();
            let tlen = topic.unicode_len();
            let metric = topic.substring_char(plen, tlen);
            proof {
                assert(first_match(amps, topic@) == Some(i as int));
                assert(metric@ =~= topic@.skip(plen as int));
            }
            if is_metric_str(metric) {
                return RouteOutcome::Data(
                    MqttDataPayload {
                        amplifier_name: amp.name.clone(),
                        metric: String::from_str(metric),
                        value,
                    },
                );
            } else {
                return RouteOutcome::Dropped(DropReason::UnknownMetric);
            }
        }
        i = i + 1;
    }
    RouteOutcome::Dropped(DropReason::NoAmplifierMatch)
}

/// Routes one raw message at a given routing time. The outcome is pinned to
/// [`spec_route`]; a dropped outcome means no event is emitted.
pub fn route_message(config: &Config, topic: &str, payload: &[u8], now: i64) -> (r: RouteOutcome)
    ensures
        r@ == spec_route(config@, topic@, payload@, now),
{
    let text = match decode_payload(payload) {
        Some(t) => t,
        None => {
            return RouteOutcome::Dropped(DropReason::InvalidUtf8);
        },
    };
    if is_notification_topic(topic) {
        if is_null_token(text.as_str()) {
            RouteOutcome::Dropped(DropReason::RetainedClear)
        } else {
            match parse_notification(text.as_str()) {
                Some(p) => RouteOutcome::Notification(
                    MqttNotificationPayload {
                        id: notification_id(topic, now),
                        title: p.title,
                        message: p.message,
                        notification_type: p.notification_type,
                        duration: p.duration,
                    },
                ),
                None => RouteOutcome::Dropped(DropReason::UnparsableNotification),
            }
        }
    } else {
        route_telemetry(config, topic, text)
    }
}

/// Routes one raw message at the current clock time.
pub fn process_incoming_message(config: &Config, topic: &str, payload: &[u8]) -> (r: RouteOutcome)
    ensures
        exists|t: i64| r@ == spec_route(config@, topic@, payload@, t),
{
    let now = now_millis();
    let r = route_message(config, topic, payload, now);
    proof {
        assert(r@ == spec_route(config@, topic@, payload@, now));
    }
    r
}

/// The event name each outcome is emitted under; dropped outcomes emit
/// nothing.
pub fn event_name(outcome: &RouteOutcome) -> (r: Option<&'static str>)
    ensures
        outcome is Data ==> (r matches Some(n) && n@ == "mqtt-data"@),
        outcome is Notification ==> (r matches Some(n) && n@ == "mqtt-notification"@),
        outcome is Dropped <==> r is None,
{
    match outcome {
        RouteOutcome::Data(_) => Some("mqtt-data"),
        RouteOutcome::Notification(_) => Some("mqtt-notification"),
        RouteOutcome::Dropped(_) => None,
    }
}

/// Every successfully parsed notification-topic payload is emitted with the
/// generated id `"{topic}-{epochMillis}"` for the routing time, whatever id
/// the payload itself carried.
pub proof fn lemma_notification_id_format(
    c: ConfigView,
    topic: Seq<char>,
    payload: Seq<u8>,
    now: i64,
)
    requires
        valid_utf8(payload),
        spec_is_notification_topic(topic),
        !is_null_text(decode_utf8(payload)),
        notif_parse(decode_utf8(payload)) is Some,
    ensures
        spec_route(c, topic, payload, now) matches RouteModel::Notification(n) && n.id
            == spec_notification_id(topic, now),
{
}

/// A payload whose text trims to the null token, on a notification topic,
/// yields no event: the drop that clears a retained message.
pub proof fn lemma_null_payload_emits_nothing(
    c: ConfigView,
    topic: Seq<char>,
    payload: Seq<u8>,
    now: i64,
)
    requires
        valid_utf8(payload),
        spec_is_notification_topic(topic),
        is_null_text(decode_utf8(payload)),
    ensures
        spec_route(c, topic, payload, now) == RouteModel::Dropped(DropReason::RetainedClear),
{
}

/// A telemetry topic whose suffix after the matched prefix is not one of the
/// recognized metric kinds yields no event.
pub proof fn lemma_unknown_metric_emits_nothing(
    c: ConfigView,
    topic: Seq<char>,
    payload: Seq<u8>,
    now: i64,
    i: int,
)
    requires
        valid_utf8(payload),
        !spec_is_notification_topic(topic),
        first_match(c.amplifiers, topic) == Some(i),
        !is_metric_name(topic.skip(c.amplifiers[i].data_topic_prefix.len() as int)),
    ensures
        spec_route(c, topic, payload, now) == RouteModel::Dropped(DropReason::UnknownMetric),
{
}

proof fn lemma_first_match_from_finds(amps: Seq<AmpView>, t: Seq<char>, i: int, j: int)
    requires
        0 <= i <= j < amps.len(),
        has_prefix(t, amps[j].data_topic_prefix),
    ensures
        first_match_from(amps, t, i) matches Some(k) && i <= k <= j && has_prefix(
            t,
            amps[k].data_topic_prefix,
        ),
    decreases j - i,
{
    if !has_prefix(t, amps[i].data_topic_prefix) {
        lemma_first_match_from_finds(amps, t, i + 1, j);
    }
}

/// When several configured amplifiers' prefixes match a topic, the message
/// resolves to the first-declared one: the matched index never lies past any
/// matching index.
pub proof fn lemma_first_declared_wins(amps: Seq<AmpView>, t: Seq<char>, j: int)
    requires
        0 <= j < amps.len(),
        has_prefix(t, amps[j].data_topic_prefix),
    ensures
        first_match(amps, t) matches Some(i) && 0 <= i <= j && has_prefix(
            t,
            amps[i].data_topic_prefix,
        ),
{
    lemma_first_match_from_finds(amps, t, 0, j);
}

/// Payload bytes that do not decode as text never fault the router: the
/// message is dropped and no event is emitted.
pub proof fn lemma_malformed_payload_emits_nothing(
    c: ConfigView,
    topic: Seq<char>,
    payload: Seq<u8>,
    now: i64,
)
    requires
        !valid_utf8(payload),
    ensures
        spec_route(c, topic, payload, now) == RouteModel::Dropped(DropReason::InvalidUtf8),
{
}

} // verus!
