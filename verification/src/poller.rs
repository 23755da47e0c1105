//! Reattach polling, run from inside the audio callback: each callback
//! samples the externally exposed identity pair and an update-event counter
//! (both arrive as already-resolved parameter values), compares them with
//! the values recorded when the current module was attached, and attempts a
//! reattach exactly on a change. A failed attempt changes nothing and is
//! naturally retried on the next callback; a successful one records the new
//! values.

use vstd::prelude::*;

use crate::identity::SessionIdentity;

verus! {

/// The identity pair and update-event counter recorded at the time the
/// currently active object's module was attached.
#[derive(Clone, Copy, Debug, PartialEq, Eq, Structural)]
pub struct ReattachPoller {
    pub attached_identity: SessionIdentity,
    pub attached_counter: u64,
}

/// A reattach is attempted exactly when the sampled identity or counter
/// differs from the recorded ones.
pub open spec fn spec_needs_reattach(
    p: ReattachPoller,
    id: SessionIdentity,
    counter: u64,
) -> bool {
    id != p.attached_identity || counter != p.attached_counter
}

impl ReattachPoller {
    /// A poller attached under the given identity and counter.
    pub fn new(id: SessionIdentity, counter: u64) -> (r: ReattachPoller)
        ensures
            r.attached_identity == id,
            r.attached_counter == counter,
    {
        ReattachPoller { attached_identity: id, attached_counter: counter }
    }

    /// Decide one callback's poll: attempt a reattach exactly when the
    /// sampled values differ from the recorded ones.
    pub fn needs_reattach(&self, id: &SessionIdentity, counter: u64) -> (r: bool)
        ensures
            r == spec_needs_reattach(*self, *id, counter),
    {
        id.time_part != self.attached_identity.time_part || id.rand_part
            != self.attached_identity.rand_part || counter != self.attached_counter
    }

    /// Record a successful reattach under the sampled values: polls of the
    /// same values then attempt nothing until they change again.
    pub fn note_attached(&mut self, id: SessionIdentity, counter: u64)
        ensures
            final(self).attached_identity == id,
            final(self).attached_counter == counter,
    {
        self.attached_identity = id;
        self.attached_counter = counter;
    }
}

/// How many reattach attempts a run of callbacks makes, given the values
/// each callback samples, when every attempted reattach succeeds and records
/// what was sampled.
pub open spec fn attempts_in_run(p: ReattachPoller, samples: Seq<(SessionIdentity, u64)>) -> nat
    decreases samples.len(),
{
    if samples.len() == 0 {
        0
    } else {
        let id = samples[0].0;
        let counter = samples[0].1;
        if spec_needs_reattach(p, id, counter) {
            1 + attempts_in_run(
                ReattachPoller { attached_identity: id, attached_counter: counter },
                samples.drop_first(),
            )
        } else {
            attempts_in_run(p, samples.drop_first())
        }
    }
}

/// Law: a run of callbacks that all sample the recorded identity and counter
/// attempts no reattach at all; a run that samples one changed value pair
/// throughout attempts exactly one, on its first callback, and none after
/// the reattach succeeds.
pub proof fn lemma_constant_samples_attempts(
    p: ReattachPoller,
    samples: Seq<(SessionIdentity, u64)>,
    id: SessionIdentity,
    counter: u64,
)
    requires
        forall|i: int| 0 <= i < samples.len() ==> #[trigger] samples[i] == (id, counter),
    ensures
        attempts_in_run(p, samples) == if samples.len() > 0 && spec_needs_reattach(
            p,
            id,
            counter,
        ) {
            1nat
        } else {
            0nat
        },
    decreases samples.len(),
{
    if samples.len() > 0 {
        assert(samples[0] == (id, counter));
        let rest = samples.drop_first();
        assert(forall|i: int| 0 <= i < rest.len() ==> #[trigger] rest[i] == (id, counter));
        if spec_needs_reattach(p, id, counter) {
            let attached = ReattachPoller { attached_identity: id, attached_counter: counter };
            lemma_constant_samples_attempts(attached, rest, id, counter);
            assert(!spec_needs_reattach(attached, id, counter));
        } else {
            lemma_constant_samples_attempts(p, rest, id, counter);
        }
    }
}

} // verus!
