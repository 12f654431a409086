//! The topic builder: derives the full subscription set from a configuration.

use vstd::prelude::*;
use vstd::string::StringExecFns;
use crate::config::{AmpView, AmplifierConfig, Config, ConfigView};

verus! {

/// The four metric topics of one amplifier, in fixed order.
pub open spec fn amp_topics(a: AmpView) -> Seq<Seq<char>> {
    seq![
        a.data_topic_prefix + "power"@,
        a.data_topic_prefix + "temp"@,
        a.data_topic_prefix + "swr"@,
        a.data_topic_prefix + "current"@,
    ]
}

/// The metric topics of the amplifiers from index `i` on, in configuration
/// order.
pub open spec fn amps_topics_from(amps: Seq<AmpView>, i: int) -> Seq<Seq<char>>
    decreases amps.len() - i,
{
    if 0 <= i < amps.len() {
        amp_topics(amps[i]) + amps_topics_from(amps, i + 1)
    } else {
        Seq::empty()
    }
}

/// The full subscription set: four metric topics per amplifier, then the
/// global notification topic, then the wildcard station-notification pattern.
/// A function of the configuration alone, so rebuilding it for a
/// resubscription yields the same ordered list every time.
pub open spec fn spec_topics(c: ConfigView) -> Seq<Seq<char>> {
    amps_topics_from(c.amplifiers, 0) + seq![
        c.notification_topic,
        c.station_notification_topic_pattern,
    ]
}

fn push_amp_topics(r: &mut Vec<String>, amp: &AmplifierConfig)
    ensures
        final(r).deep_view() == old(r).deep_view() + amp_topics(amp@),
{
    let ghost dv0 = r.deep_view();
    let prefix = &amp.data_topic_prefix;
    r.push(prefix.clone().concat("power"));
    r.push(prefix.clone().concat("temp"));
    r.push(prefix.clone().concat("swr"));
    r.push(prefix.clone().concat("current"));
    proof {
        assert(r.deep_view() =~= dv0 + amp_topics(amp@));
    }
}

/// Derives the ordered list of topics to subscribe to. The result is pinned
/// to `spec_topics(config@)`, so repeated calls with the same configuration
/// yield an identical ordered list.
pub fn build_topics(config: &Config) -> (r: Vec<String>)
    ensures
        r.deep_view() == spec_topics(config@),
{
    let mut r: Vec<String> = Vec::new();
    let n = config.amplifiers.len();
    let mut i: usize = 0;
    while i < n
        invariant
            n == config.amplifiers.len(),
            i <= n,
            r.deep_view() + amps_topics_from(config@.amplifiers, i as int) == amps_topics_from(
                config@.amplifiers,
                0,
            ),
        decreases n - i,
    {
        let ghost dv0 = r.deep_view();
        push_amp_topics(&mut r, &config.amplifiers[i]);
        proof {
            assert(config@.amplifiers[i as int] == config.amplifiers[i as int]@);
            assert(r.deep_view() + amps_topics_from(config@.amplifiers, i + 1) =~= dv0
                + amps_topics_from(config@.amplifiers, i as int));
        }
        i = i + 1;
    }
    r.push(config.notification_topic.clone());
    r.push(config.station_notification_topic_pattern.clone());
    proof {
        assert(r.deep_view() =~= spec_topics(config@));
    }
    r
}

/// The topic builder is deterministic and idempotent: any two lists that
/// satisfy [`build_topics`]'s contract for the same configuration are the
/// same ordered list, so repeated calls — in particular the resubscription
/// after a poll failure — yield an identical subscription set.
pub proof fn lemma_build_topics_deterministic(
    c: ConfigView,
    r1: Seq<Seq<char>>,
    r2: Seq<Seq<char>>,
)
    requires
        r1 == spec_topics(c),
        r2 == spec_topics(c),
    ensures
        r1 == r2,
{
}

} // verus!
