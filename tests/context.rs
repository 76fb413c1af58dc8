use malachite_reth::{
    Address, ConfigError, Extension, Height, MalachiteContext, NilOrVal, Round, Validator,
    ValidatorSet, Value, ValueId, VoteType,
};

fn validator(id: u64, voting_power: u64) -> Validator {
    Validator { address: Address { id }, voting_power }
}

fn abc() -> ValidatorSet {
    ValidatorSet::new(vec![validator(1, 1), validator(2, 1), validator(3, 1)]).unwrap()
}

#[test]
fn round_robin_within_a_height() {
    let ctx = MalachiteContext::new();
    let set = abc();
    let h = Height::new(10);
    assert_eq!(ctx.select_proposer(&set, h, Round::new(0)).unwrap().address.id, 1);
    assert_eq!(ctx.select_proposer(&set, h, Round::new(1)).unwrap().address.id, 2);
    assert_eq!(ctx.select_proposer(&set, h, Round::new(2)).unwrap().address.id, 3);
    assert_eq!(ctx.select_proposer(&set, h, Round::new(3)).unwrap().address.id, 1);
}

#[test]
fn height_rollover_starts_from_first_validator() {
    let ctx = MalachiteContext::new();
    let set = abc();
    assert_eq!(ctx.select_proposer(&set, Height::new(11), Round::new(0)).unwrap().address.id, 1);
    assert_eq!(ctx.select_proposer(&set, Height::new(11), Round::new(1)).unwrap().address.id, 2);
}

#[test]
fn nil_round_takes_first_slot() {
    let ctx = MalachiteContext::new();
    let set = abc();
    assert_eq!(ctx.select_proposer(&set, Height::new(3), Round::Nil).unwrap().address.id, 1);
}

#[test]
fn proposer_selection_is_deterministic() {
    let ctx = MalachiteContext::new();
    let set = abc();
    let other = abc();
    for r in 0..20u32 {
        let a = *ctx.select_proposer(&set, Height::new(7), Round::new(r)).unwrap();
        let b = *ctx.select_proposer(&set, Height::new(7), Round::new(r)).unwrap();
        let c = *ctx.select_proposer(&other, Height::new(7), Round::new(r)).unwrap();
        assert_eq!(a, b);
        assert_eq!(a, c);
    }
}

#[test]
fn largest_round_wraps() {
    let ctx = MalachiteContext::new();
    let set = abc();
    // u32::MAX % 3 == 0
    let v = ctx.select_proposer(&set, Height::new(1), Round::new(u32::MAX)).unwrap();
    assert_eq!(v.address.id, 1);
}

#[test]
fn empty_validator_set_is_a_configuration_error() {
    let ctx = MalachiteContext::new();
    let set = ValidatorSet::default();
    assert_eq!(set.len(), 0);
    assert_eq!(
        ctx.select_proposer(&set, Height::new(10), Round::new(0)),
        Err(ConfigError::EmptyValidatorSet)
    );
}

#[test]
fn prevote_for_value() {
    let v = MalachiteContext::new_prevote(
        Height::new(5),
        Round::new(2),
        NilOrVal::Val(ValueId { digest: 9 }),
        Address { id: 4 },
    );
    assert_eq!(v.vote_type, VoteType::Prevote);
    assert_eq!(v.height, Height::new(5));
    assert_eq!(v.round, Round::new(2));
    assert_eq!(v.value_id, NilOrVal::Val(ValueId { digest: 9 }));
    assert_eq!(v.voter, Address { id: 4 });
    assert_eq!(v.extension, None);
}

#[test]
fn prevote_for_nil() {
    let v = MalachiteContext::new_prevote(Height::new(5), Round::new(2), NilOrVal::Nil, Address { id: 4 });
    assert_eq!(v.vote_type, VoteType::Prevote);
    assert_eq!(v.value_id, NilOrVal::Nil);
    assert_eq!(v.extension, None);
}

#[test]
fn precommit_keeps_extension() {
    let ext = Extension { data: vec![1, 2, 3] };
    let v = MalachiteContext::new_precommit(
        Height::new(8),
        Round::new(0),
        NilOrVal::Val(ValueId { digest: 77 }),
        Address { id: 2 },
        Some(ext.clone()),
    );
    assert_eq!(v.vote_type, VoteType::Precommit);
    assert_eq!(v.height, Height::new(8));
    assert_eq!(v.round, Round::new(0));
    assert_eq!(v.value_id, NilOrVal::Val(ValueId { digest: 77 }));
    assert_eq!(v.voter, Address { id: 2 });
    assert_eq!(v.extension, Some(ext));
}

#[test]
fn precommit_for_nil_without_extension() {
    let v = MalachiteContext::new_precommit(Height::new(8), Round::new(1), NilOrVal::Nil, Address { id: 2 }, None);
    assert_eq!(v.vote_type, VoteType::Precommit);
    assert_eq!(v.value_id, NilOrVal::Nil);
    assert_eq!(v.extension, None);
}

#[test]
fn proposal_fields() {
    let value = Value { id: ValueId { digest: 5 }, payload: vec![9, 9] };
    let p = MalachiteContext::new_proposal(Height::new(3), Round::new(4), value.clone(), Round::Nil, Address { id: 1 });
    assert_eq!(p.height, Height::new(3));
    assert_eq!(p.round, Round::new(4));
    assert_eq!(p.value, value);
    assert_eq!(p.value.id(), ValueId { digest: 5 });
    assert_eq!(p.pol_round, Round::Nil);
    assert_eq!(p.proposer, Address { id: 1 });
}
