//! The live-delivery sink, modelled as the history of published events.
//!
//! Delivery to the host's listeners is fire-and-forget: absence of a
//! subscriber is not an error and a rejected delivery is discarded, so
//! publishing never blocks or fails the multiplexing loop. What is
//! decided here, and verified, is the publication history: each publish
//! adds exactly one (topic, payload) pair at the end, in order.

use vstd::prelude::*;

verus! {

/// The named channel on which captured sidecar lines are published.
pub open spec fn log_topic_spec() -> Seq<char> {
    "backend-log"@
}

/// The topic the host delivers payloads on.
pub fn log_topic() -> (r: &'static str)
    ensures
        r@ == log_topic_spec(),
{
    "backend-log"
}

/// Best-effort live event stream: the (topic, payload) pairs published,
/// in publication order. The host mirrors every publish to its listeners.
pub struct EventEmitter {
    pub events: Vec<(String, String)>,
}

impl EventEmitter {
    /// The payloads published, in order.
    pub open spec fn payloads(self) -> Seq<Seq<char>> {
        self.events@.map_values(|p: (String, String)| p.1@)
    }

    /// Every publication so far went out on the sidecar log topic.
    pub open spec fn topics_ok(self) -> bool {
        forall|i: int| 0 <= i < self.events@.len() ==> (#[trigger] self.events@[i]).0@ == log_topic_spec()
    }

    /// An emitter with nothing published yet.
    pub fn new() -> (r: EventEmitter)
        ensures
            r.payloads() == Seq::<Seq<char>>::empty(),
            r.topics_ok(),
    {
        let r = EventEmitter { events: Vec::new() };
        proof {
            assert(r.payloads() =~= Seq::<Seq<char>>::empty());
        }
        r
    }

    /// Publishes exactly one payload on the given topic, at the end of
    /// the history; nothing already published changes.
    pub fn publish(&mut self, topic: String, payload: String)
        ensures
            final(self).events@ == old(self).events@.push((topic, payload)),
            final(self).payloads() == old(self).payloads().push(payload@),
    {
        self.events.push((topic, payload));
        proof {
            assert(self.payloads() =~= old(self).payloads().push(payload@));
        }
    }
}

} // verus!
