//! The chain-specific decisions the consensus engine delegates: who proposes
//! in a round, and how proposals and votes are put together.
use vstd::prelude::*;

use crate::types::{Address, ConfigError, Extension, Height, Proposal, Validator, ValidatorSet, Value, ValueId, Vote};
use informalsystems_malachitebft_core_types::{NilOrVal, Round, VoteType};

verus! {

/// Slot of a round in the rotation: a defined round counts from zero, and the
/// `Nil` round takes the first slot.
pub open spec fn round_slot(round: Round) -> nat {
    match round {
        Round::Nil => 0,
        Round::Some(n) => n as nat,
    }
}

/// Index of the proposer among `n` validators: rounds rotate through the set
/// in order, starting again from the first validator at every height.
pub open spec fn proposer_index(n: nat, round: Round) -> int
    recommends
        n > 0,
{
    (round_slot(round) % n) as int
}

/// The validator entitled to propose at `(height, round)`.
pub open spec fn proposer_of(vs: Seq<Validator>, height: Height, round: Round) -> Validator
    recommends
        vs.len() > 0,
{
    vs[proposer_index(vs.len(), round)]
}

/// Engine context of this chain: proposer policy and message constructors.
#[derive(Clone, Copy, Debug)]
pub struct MalachiteContext {}

impl MalachiteContext {
    pub fn new() -> (r: MalachiteContext) {
        MalachiteContext {}
    }

    /// The proposer for `(height, round)`; an empty set is a configuration
    /// error that the node cannot recover from at this height.
    pub fn select_proposer<'a>(
        &self,
        validator_set: &'a ValidatorSet,
        height: Height,
        round: Round,
    ) -> (r: Result<&'a Validator, ConfigError>)
        ensures
            validator_set@.len() > 0 <==> r is Ok,
            r matches Ok(v) ==> *v == proposer_of(validator_set@, height, round),
            r matches Err(e) ==> e == ConfigError::EmptyValidatorSet,
    {
        let n = validator_set.len();
        if n == 0 {
            return Err(ConfigError::EmptyValidatorSet);
        }
        let slot: u32 = match round.as_u32() {
            Some(k) => k,
            None => 0,
        };
        let i = (slot as usize) % n;
        Ok(validator_set.get(i))
    }

    /// A proposal of `value` by `address`, with `pol_round` as its lock round.
    pub fn new_proposal(
        height: Height,
        round: Round,
        value: Value,
        pol_round: Round,
        address: Address,
    ) -> (p: Proposal)
        ensures
            p.height == height,
            p.round == round,
            p.value == value,
            p.pol_round == pol_round,
            p.proposer == address,
    {
        Proposal { height, round, value, pol_round, proposer: address }
    }

    /// An unsigned prevote; prevotes never carry an extension.
    pub fn new_prevote(
        height: Height,
        round: Round,
        value_id: NilOrVal<ValueId>,
        address: Address,
    ) -> (v: Vote)
        ensures
            v.vote_type == VoteType::Prevote,
            v.height == height,
            v.round == round,
            v.value_id == value_id,
            v.voter == address,
            v.extension is None,
    {
        Vote { vote_type: VoteType::Prevote, height, round, value_id, voter: address, extension: None }
    }

    /// An unsigned precommit carrying the caller's extension, if any.
    pub fn new_precommit(
        height: Height,
        round: Round,
        value_id: NilOrVal<ValueId>,
        address: Address,
        extension: Option<Extension>,
    ) -> (v: Vote)
        ensures
            v.vote_type == VoteType::Precommit,
            v.height == height,
            v.round == round,
            v.value_id == value_id,
            v.voter == address,
            v.extension == extension,
    {
        Vote { vote_type: VoteType::Precommit, height, round, value_id, voter: address, extension }
    }
}

/// Proposer selection is a function of its inputs: equal validator sets,
/// heights and rounds give the same proposer, whoever computes it.
pub proof fn lemma_proposer_deterministic(
    s1: ValidatorSet,
    s2: ValidatorSet,
    h1: Height,
    h2: Height,
    r1: Round,
    r2: Round,
)
    requires
        s1@ == s2@,
        h1 == h2,
        r1 == r2,
    ensures
        proposer_of(s1@, h1, r1) == proposer_of(s2@, h2, r2),
{
}

/// The proposer of every round is a member of the set.
pub proof fn lemma_proposer_in_set(vs: Seq<Validator>, height: Height, round: Round)
    requires
        vs.len() > 0,
    ensures
        0 <= proposer_index(vs.len(), round) < vs.len(),
        vs.contains(proposer_of(vs, height, round)),
{
    assert(vs[proposer_index(vs.len(), round)] == proposer_of(vs, height, round));
}

/// Round robin: each next round hands the proposal to the next validator of
/// the set, wrapping around after the last one.
pub proof fn lemma_proposer_round_robin(vs: Seq<Validator>, height: Height, k: u32)
    requires
        vs.len() > 0,
        k < u32::MAX,
    ensures
        proposer_index(vs.len(), Round::Some((k + 1) as u32))
            == (proposer_index(vs.len(), Round::Some(k)) + 1) % (vs.len() as int),
{
    let n = vs.len() as int;
    vstd::arithmetic::div_mod::lemma_add_mod_noop(k as int, 1, n);
    if n > 1 {
        vstd::arithmetic::div_mod::lemma_small_mod(1, n as nat);
    }
}

/// Height rollover: round zero of every height is proposed by the first
/// validator of the set.
pub proof fn lemma_proposer_height_rollover(vs: Seq<Validator>, height: Height)
    requires
        vs.len() > 0,
    ensures
        proposer_of(vs, height, Round::Some(0)) == vs[0],
{
    vstd::arithmetic::div_mod::lemma_small_mod(0, vs.len());
}

} // verus!
