//! Domain value types: heights, addresses, values, validators and the
//! validator set, proposals and votes.
use vstd::prelude::*;

use informalsystems_malachitebft_core_types::{NilOrVal, Round, VoteType};

verus! {

/// Position of a block in the chain.
#[derive(Clone, Copy, Debug, PartialEq, Eq, Structural, Hash, PartialOrd, Ord)]
pub struct Height {
    pub number: u64,
}

impl Height {
    pub fn new(number: u64) -> (h: Height)
        ensures
            h.number == number,
    {
        Height { number }
    }

    pub fn as_u64(&self) -> (r: u64)
        ensures
            r == self.number,
    {
        self.number
    }

    /// The next height; `None` only when the counter is exhausted.
    pub fn increment(&self) -> (r: Option<Height>)
        ensures
            self.number < u64::MAX <==> r is Some,
            r matches Some(h) ==> h.number == self.number + 1,
    {
        if self.number < u64::MAX {
            Some(Height { number: self.number + 1 })
        } else {
            None
        }
    }
}

/// Identifier of a validator, unique within a validator set.
#[derive(Clone, Copy, Debug, PartialEq, Eq, Structural, Hash, PartialOrd, Ord)]
pub struct Address {
    pub id: u64,
}

/// Content-derived identifier of a value.
#[derive(Clone, Copy, Debug, PartialEq, Eq, Structural, Hash, PartialOrd, Ord)]
pub struct ValueId {
    pub digest: u64,
}

/// A candidate value: opaque to the engine except through its id.
#[derive(Clone, Debug, PartialEq, Eq)]
pub struct Value {
    pub id: ValueId,
    pub payload: Vec<u8>,
}

impl Value {
    pub fn id(&self) -> (r: ValueId)
        ensures
            r == self.id,
    {
        self.id
    }
}

/// Application payload attachable to a precommit.
#[derive(Clone, Debug, PartialEq, Eq)]
pub struct Extension {
    pub data: Vec<u8>,
}

/// A validator and its voting power.
#[derive(Clone, Copy, Debug, PartialEq, Eq, Structural, Hash)]
pub struct Validator {
    pub address: Address,
    pub voting_power: u64,
}

/// Why a configuration cannot be used.
#[derive(Clone, Copy, Debug, PartialEq, Eq, Structural)]
pub enum ConfigError {
    /// The validator set holds no validator.
    EmptyValidatorSet,
    /// Two validators share an address.
    DuplicateAddress,
    /// The voting powers add up to zero.
    ZeroTotalPower,
    /// The voting powers add up to more than a `u64` holds.
    TotalPowerOverflow,
    /// The chain parameters are unusable.
    InvalidChainSpec,
}

/// Sum of the voting powers of a sequence of validators.
pub open spec fn total_power(vs: Seq<Validator>) -> nat
    decreases vs.len(),
{
    if vs.len() == 0 {
        0
    } else {
        total_power(vs.drop_last()) + vs.last().voting_power as nat
    }
}

/// No two validators of `vs` share an address.
pub open spec fn addresses_unique(vs: Seq<Validator>) -> bool {
    forall|i: int, j: int|
        0 <= i < j < vs.len() ==> #[trigger] vs[i].address != #[trigger] vs[j].address
}

/// The first rule a sequence of validators breaks, if any.
pub open spec fn validator_set_error(vs: Seq<Validator>) -> Option<ConfigError> {
    if vs.len() == 0 {
        Some(ConfigError::EmptyValidatorSet)
    } else if !addresses_unique(vs) {
        Some(ConfigError::DuplicateAddress)
    } else if total_power(vs) > u64::MAX {
        Some(ConfigError::TotalPowerOverflow)
    } else if total_power(vs) == 0 {
        Some(ConfigError::ZeroTotalPower)
    } else {
        None
    }
}

/// Ordered validators of one height. A set built by `new` is non-empty, has
/// unique addresses and a positive total power that fits in a `u64`.
#[derive(Clone, Debug)]
pub struct ValidatorSet {
    validators: Vec<Validator>,
}

proof fn lemma_total_power_push(vs: Seq<Validator>, v: Validator)
    ensures
        total_power(vs.push(v)) == total_power(vs) + v.voting_power,
{
    assert(vs.push(v).drop_last() =~= vs);
}

impl ValidatorSet {
    pub closed spec fn view(&self) -> Seq<Validator> {
        self.validators@
    }

    pub open spec fn wf(&self) -> bool {
        validator_set_error(self@) is None
    }

    /// Takes a snapshot of `validators`, in order, if it is a usable set.
    pub fn new(validators: Vec<Validator>) -> (r: Result<ValidatorSet, ConfigError>)
        ensures
            validator_set_error(validators@) is None <==> r is Ok,
            r matches Ok(s) ==> s@ == validators@ && s.wf(),
            r matches Err(e) ==> validator_set_error(validators@) == Some(e),
    {
        let n = validators.len();
        if n == 0 {
            return Err(ConfigError::EmptyValidatorSet);
        }
        let mut i: usize = 1;
        while i < n
            invariant
                1 <= i <= n,
                n == validators@.len(),
                forall|a: int, b: int|
                    0 <= a < b < i ==> #[trigger] validators@[a].address
                        != #[trigger] validators@[b].address,
            decreases n - i,
        {
            let mut j: usize = 0;
            while j < i
                invariant
                    0 <= j <= i < n,
                    n == validators@.len(),
                    forall|b: int| 0 <= b < j ==> validators@[b].address != validators@[i as int].address,
                decreases i - j,
            {
                if validators[j].address == validators[i].address {
                    assert(!addresses_unique(validators@)) by {
                        assert(validators@[j as int].address == validators@[i as int].address);
                    }
                    return Err(ConfigError::DuplicateAddress);
                }
                j = j + 1;
            }
            i = i + 1;
        }
        assert(addresses_unique(validators@));
        let mut sum: u64 = 0;
        let mut k: usize = 0;
        while k < n
            invariant
                0 <= k <= n,
                n == validators@.len(),
                addresses_unique(validators@),
                sum == total_power(validators@.subrange(0, k as int)),
            decreases n - k,
        {
            proof {
                lemma_total_power_push(validators@.subrange(0, k as int), validators@[k as int]);
                assert(validators@.subrange(0, k as int).push(validators@[k as int])
                    =~= validators@.subrange(0, k + 1));
            }
            if validators[k].voting_power > u64::MAX - sum {
                proof {
                    lemma_total_power_prefix(validators@, k as int + 1);
                }
                return Err(ConfigError::TotalPowerOverflow);
            }
            sum = sum + validators[k].voting_power;
            k = k + 1;
        }
        assert(validators@.subrange(0, n as int) =~= validators@);
        if sum == 0 {
            return Err(ConfigError::ZeroTotalPower);
        }
        Ok(ValidatorSet { validators })
    }

    pub fn len(&self) -> (r: usize)
        ensures
            r == self@.len(),
    {
        self.validators.len()
    }

    pub fn get(&self, i: usize) -> (r: &Validator)
        requires
            i < self@.len(),
        ensures
            *r == self@[i as int],
    {
        &self.validators[i]
    }

    /// Total voting power of the set.
    pub fn total_voting_power(&self) -> (r: u64)
        requires
            self.wf(),
        ensures
            r == total_power(self@),
    {
        let n = self.validators.len();
        let mut sum: u64 = 0;
        let mut k: usize = 0;
        while k < n
            invariant
                0 <= k <= n,
                n == self@.len(),
                total_power(self@) <= u64::MAX,
                sum == total_power(self@.subrange(0, k as int)),
            decreases n - k,
        {
            proof {
                lemma_total_power_push(self@.subrange(0, k as int), self@[k as int]);
                assert(self@.subrange(0, k as int).push(self@[k as int]) =~= self@.subrange(0, k + 1));
                lemma_total_power_prefix(self@, k as int + 1);
            }
            sum = sum + self.validators[k].voting_power;
            k = k + 1;
        }
        assert(self@.subrange(0, n as int) =~= self@);
        sum
    }
}

/// A prefix never holds more voting power than the whole sequence.
proof fn lemma_total_power_prefix(vs: Seq<Validator>, k: int)
    requires
        0 <= k <= vs.len(),
    ensures
        total_power(vs.subrange(0, k)) <= total_power(vs),
    decreases vs.len() - k,
{
    if k < vs.len() {
        lemma_total_power_prefix(vs, k + 1);
        lemma_total_power_push(vs.subrange(0, k), vs[k]);
        assert(vs.subrange(0, k).push(vs[k]) =~= vs.subrange(0, k + 1));
    } else {
        assert(vs.subrange(0, k) =~= vs);
    }
}

impl Default for ValidatorSet {
    /// The empty set: no height can be run on it.
    fn default() -> (r: ValidatorSet)
        ensures
            r@.len() == 0,
    {
        ValidatorSet { validators: Vec::new() }
    }
}

/// A proposal of a value for a height and round.
#[derive(Debug, PartialEq, Eq)]
pub struct Proposal {
    pub height: Height,
    pub round: Round,
    pub value: Value,
    /// Round in which the proposer saw a quorum lock, or `Nil`.
    pub pol_round: Round,
    pub proposer: Address,
}

/// An unsigned vote.
#[derive(Debug, PartialEq, Eq)]
pub struct Vote {
    pub vote_type: VoteType,
    pub height: Height,
    pub round: Round,
    pub value_id: NilOrVal<ValueId>,
    pub voter: Address,
    pub extension: Option<Extension>,
}

} // verus!
