//! The connection manager's decisions: the session identifier, the fixed
//! keep-alive and reconnect intervals, and the step the event loop takes
//! after each poll. The session itself (connect, subscribe, poll) is I/O and
//! lives with the host process, which consults these functions for every
//! choice it makes.

use vstd::prelude::*;
use vstd::string::StringExecFns;
use crate::config::Config;
use crate::router::{spec_route, route_message, RouteOutcome};
use crate::text::{dec_digits, u64_dec};
use crate::topics::{build_topics, spec_topics};

verus! {

/// Seconds between keep-alive probes on the broker session.
pub const KEEP_ALIVE_SECS: u64 = 5;

/// Seconds to pause after a poll failure before resubscribing. The retry is
/// unconditional and unbounded with this fixed delay, by design: the loop
/// keeps attempting for the life of the process, with no backoff growth.
pub const RECONNECT_DELAY_SECS: u64 = 5;

/// The session identifier for a given random suffix: a fixed prefix with the
/// suffix's decimal digits appended.
pub open spec fn spec_client_id(n: u16) -> Seq<char> {
    "tauri-amp-monitor-"@ + dec_digits(n as int)
}

/// Builds the session identifier for one suffix.
pub fn client_id_for(suffix: u16) -> (r: String)
    ensures
        r@ == spec_client_id(suffix),
{
    let d = u64_dec(suffix as u64);
    String::from_str("tauri-amp-monitor-").concat(d.as_str())
}

/// Relies on rand::random: an arbitrary value of the asked-for type; nothing
/// is promised of which one.
pub assume_specification<T>[ rand::random::<T> ]() -> (r: T)
    where
        rand::distributions::Standard: rand::distributions::Distribution<T>,
;

/// A fresh session identifier: the fixed prefix plus a random suffix, so
/// that restarts of the process do not collide with the broker-side session
/// of an earlier run.
pub fn make_client_id() -> (r: String)
    ensures
        exists|n: u16| r@ == spec_client_id(n),
{
    let n: u16 = rand::random::<u16>();
    let r = client_id_for(n);
    proof {
        assert(r@ == spec_client_id(n));
    }
    r
}

/// One outcome of polling the broker session, as the event loop sees it.
pub enum PollOutcome {
    /// An inbound publish: a topic and its raw payload bytes.
    Publish { topic: String, payload: Vec<u8> },
    /// Any other broker packet (acks, pings): ignored.
    Other,
    /// A poll error.
    Failed,
}

/// What the event loop must do after one poll.
pub enum NextStep {
    /// Hand the routed outcome to the event sink; a dropped outcome emits
    /// nothing.
    Deliver(RouteOutcome),
    /// Nothing to do.
    Ignore,
    /// Pause for the fixed delay, resubscribe to exactly these topics, and
    /// resume polling.
    Recover { delay_secs: u64, resubscribe: Vec<String> },
}

/// Decides the event loop's next step from one poll outcome. A publish is
/// routed; other packets are ignored; a poll failure leads to the fixed
/// delay and a resubscription to exactly the topics the topic builder
/// derives from the configuration, unchanged from the initial connect.
pub fn handle_poll(config: &Config, outcome: PollOutcome, now: i64) -> (r: NextStep)
    ensures
        outcome matches PollOutcome::Publish { topic, payload } ==> (r
            matches NextStep::Deliver(o) && o@ == spec_route(config@, topic@, payload@, now)),
        outcome is Other ==> r is Ignore,
        outcome is Failed ==> (r matches NextStep::Recover { delay_secs, resubscribe }
            && delay_secs == RECONNECT_DELAY_SECS && resubscribe.deep_view() == spec_topics(
            config@,
        )),
{
    match outcome {
        PollOutcome::Publish { topic, payload } => NextStep::Deliver(
            route_message(config, topic.as_str(), payload.as_slice(), now),
        ),
        PollOutcome::Other => NextStep::Ignore,
        PollOutcome::Failed => NextStep::Recover {
            delay_secs: RECONNECT_DELAY_SECS,
            resubscribe: build_topics(config),
        },
    }
}

} // verus!
