//! The rewards and penalties of one validator in one epoch.

use vstd::prelude::*;

verus! {

/// One of the amounts that deltas are made of.
#[derive(Clone, Copy, Debug, PartialEq, Eq)]
pub enum Component {
    /// The reward for a correct and timely vote.
    HeadFfgReward,
    /// The penalty for a vote that was missed or wrong.
    HeadFfgPenalty,
    /// The reward for proposing a block.
    ProposerReward,
    /// The reward for an attestation.
    AttesterReward,
}

/// What one validator earns and loses in one epoch. A value is made afresh for
/// each validator and each epoch.
#[derive(Clone, Copy, Debug, PartialEq, Eq)]
pub struct Deltas {
    /// The reward for a correct and timely vote on head and checkpoints.
    pub head_ffg_reward: u64,
    /// The penalty for a vote that was missed or wrong.
    pub head_ffg_penalty: u64,
    /// The reward for including attestations in a proposed block.
    pub proposer_reward: u64,
    /// The reward for an attestation that was included in time.
    pub attester_reward: u64,
}

impl Deltas {
    /// No reward and no penalty.
    pub open spec fn zero() -> Deltas {
        Deltas { head_ffg_reward: 0, head_ffg_penalty: 0, proposer_reward: 0, attester_reward: 0 }
    }

    /// What the rewards add to a balance.
    pub open spec fn rewards(self) -> int {
        self.head_ffg_reward + self.proposer_reward + self.attester_reward
    }

    /// One of the amounts of the deltas.
    pub open spec fn component(self, component: Component) -> nat {
        match component {
            Component::HeadFfgReward => self.head_ffg_reward as nat,
            Component::HeadFfgPenalty => self.head_ffg_penalty as nat,
            Component::ProposerReward => self.proposer_reward as nat,
            Component::AttesterReward => self.attester_reward as nat,
        }
    }

    /// Deltas without reward or penalty.
    pub fn new() -> (deltas: Deltas)
        ensures
            deltas == Deltas::zero(),
    {
        Deltas { head_ffg_reward: 0, head_ffg_penalty: 0, proposer_reward: 0, attester_reward: 0 }
    }
}

/// The sum of one component over a sequence of deltas.
pub open spec fn total_deltas(deltas: Seq<Deltas>, component: Component) -> nat
    decreases deltas.len(),
{
    if deltas.len() == 0 {
        0
    } else {
        total_deltas(deltas.drop_last(), component) + deltas.last().component(component)
    }
}

/// The total over a sequence with one more deltas appended.
pub proof fn lemma_total_deltas_push(deltas: Seq<Deltas>, component: Component, last: Deltas)
    ensures
        total_deltas(deltas.push(last), component) == total_deltas(deltas, component)
            + last.component(component),
{
    assert(deltas.push(last).drop_last() =~= deltas);
}

/// The total over the beginning of a sequence is at most the total over all
/// of it.
pub proof fn lemma_total_deltas_prefix(deltas: Seq<Deltas>, component: Component, length: int)
    requires
        0 <= length <= deltas.len(),
    ensures
        total_deltas(deltas.take(length), component) <= total_deltas(deltas, component),
    decreases deltas.len(),
{
    if length == deltas.len() {
        assert(deltas.take(length) =~= deltas);
    } else {
        assert(deltas.drop_last().take(length) =~= deltas.take(length));
        lemma_total_deltas_prefix(deltas.drop_last(), component, length);
    }
}

} // verus!
