//! The topic registry: the ordered set of (topic filter, delivery quality,
//! options) tuples one session subscribes to.  The broker's subscribe-many
//! operation is positional across the three vectors, so equal lengths are an
//! invariant of the type, not a runtime condition; order is insertion order
//! and is preserved.

use vstd::prelude::*;

use crate::options::SubscribeOptions;
use crate::ConfigError;

verus! {

/// Whether three positional vectors describe the same number of entries.
pub open spec fn lengths_match(
    topics: Seq<String>,
    qos: Seq<i32>,
    opts: Seq<SubscribeOptions>,
) -> bool {
    qos.len() == topics.len() && opts.len() == topics.len()
}

/// Whether every delivery quality is one of 0, 1 and 2.
pub open spec fn all_qos_valid(qos: Seq<i32>) -> bool {
    forall|i: int| 0 <= i < qos.len() ==> 0 <= #[trigger] qos[i] <= 2
}

/// The subscriptions one session requests, immutable once built.
#[derive(Debug)]
pub struct Subscriptions {
    pub topics: Vec<String>,
    pub qos: Vec<i32>,
    pub opts: Vec<SubscribeOptions>,
}

impl Subscriptions {
    /// The three vectors describe the same entries positionally and every
    /// delivery quality is one of 0, 1 and 2.
    pub open spec fn well_formed(&self) -> bool {
        &&& self.qos@.len() == self.topics@.len()
        &&& self.opts@.len() == self.topics@.len()
        &&& forall|i: int| 0 <= i < self.qos@.len() ==> 0 <= #[trigger] self.qos@[i] <= 2
    }

    /// The registry as the sequence of its entries, in insertion order.
    pub open spec fn entries(&self) -> Seq<(Seq<char>, i32, SubscribeOptions)> {
        Seq::new(self.topics@.len(), |i: int| (self.topics@[i]@, self.qos@[i], self.opts@[i]))
    }

    pub fn new() -> (r: Subscriptions)
        ensures
            r.well_formed(),
            r.entries() == Seq::<(Seq<char>, i32, SubscribeOptions)>::empty(),
    {
        let r = Subscriptions { topics: Vec::new(), qos: Vec::new(), opts: Vec::new() };
        proof {
            assert(r.entries() =~~= Seq::<(Seq<char>, i32, SubscribeOptions)>::empty());
        }
        r
    }

    /// Appends one entry; insertion order is kept.
    pub fn add(&mut self, topic: &str, qos: i32, opt: SubscribeOptions)
        requires
            old(self).well_formed(),
            0 <= qos <= 2,
        ensures
            final(self).well_formed(),
            final(self).entries() == old(self).entries().push((topic@, qos, opt)),
    {
        self.topics.push(topic.to_owned());
        self.qos.push(qos);
        self.opts.push(opt);
        proof {
            assert(final(self).entries() =~~= old(self).entries().push((topic@, qos, opt)));
        }
    }

    /// Takes the built registry out of the builder, leaving it empty.
    pub fn finalize(&mut self) -> (r: Subscriptions)
        ensures
            r == *old(self),
            final(self).well_formed(),
            final(self).entries() == Seq::<(Seq<char>, i32, SubscribeOptions)>::empty(),
    {
        let mut out = Subscriptions::new();
        core::mem::swap(&mut out, self);
        out
    }

    /// The number of entries.
    pub fn len(&self) -> (r: usize)
        ensures
            r == self.entries().len(),
    {
        self.topics.len()
    }

    /// Builds a registry from positional vectors, as the broker's
    /// subscribe-many operation consumes them.  Succeeds exactly when the
    /// vectors have equal lengths and every quality is one of 0, 1 and 2;
    /// a length mismatch is reported before an out-of-range quality.
    pub fn from_parts(topics: Vec<String>, qos: Vec<i32>, opts: Vec<SubscribeOptions>) -> (r:
        Result<Subscriptions, ConfigError>)
        ensures
            !lengths_match(topics@, qos@, opts@) ==> r == Err::<Subscriptions, ConfigError>(
                ConfigError::MismatchedSubscriptionVectors,
            ),
            lengths_match(topics@, qos@, opts@) && !all_qos_valid(qos@) ==> r == Err::<
                Subscriptions,
                ConfigError,
            >(ConfigError::InvalidQos),
            r matches Ok(s) ==> {
                &&& s.well_formed()
                &&& s.topics@ == topics@
                &&& s.qos@ == qos@
                &&& s.opts@ == opts@
            },
            r is Ok <==> (lengths_match(topics@, qos@, opts@) && all_qos_valid(qos@)),
    {
        if qos.len() != topics.len() || opts.len() != topics.len() {
            return Err(ConfigError::MismatchedSubscriptionVectors);
        }
        let mut i: usize = 0;
        while i < qos.len()
            invariant
                i <= qos@.len(),
                lengths_match(topics@, qos@, opts@),
                forall|j: int| 0 <= j < i ==> 0 <= #[trigger] qos@[j] <= 2,
            decreases qos@.len() - i,
        {
            if qos[i] < 0 || qos[i] > 2 {
                proof {
                    assert(!all_qos_valid(qos@)) by {
                        if all_qos_valid(qos@) {
                            assert(0 <= qos@[i as int] <= 2);
                            assert(false);
                        }
                    }
                }
                return Err(ConfigError::InvalidQos);
            }
            i = i + 1;
        }
        Ok(Subscriptions { topics, qos, opts })
    }
}

} // verus!
