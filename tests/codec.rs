use malachite_reth::codec::{encode_proposal, encode_vote};
use malachite_reth::{Address, Extension, Height, MalachiteContext, NilOrVal, Round, Value, ValueId};

#[test]
fn prevote_encoding_exact_bytes() {
    let v = MalachiteContext::new_prevote(
        Height::new(10),
        Round::new(1),
        NilOrVal::Val(ValueId { digest: 0x0102 }),
        Address { id: 3 },
    );
    let expected: Vec<u8> = vec![
        1, 0, // vote, prevote
        0, 0, 0, 0, 0, 0, 0, 10, // height
        1, 0, 0, 0, 1, // round 1
        1, 0, 0, 0, 0, 0, 0, 1, 2, // value id
        0, 0, 0, 0, 0, 0, 0, 3, // voter
        0, // no extension
    ];
    assert_eq!(encode_vote(&v), expected);
}

#[test]
fn precommit_encoding_with_nil_round_and_extension() {
    let v = MalachiteContext::new_precommit(
        Height::new(0x0100_0000_0000_0000),
        Round::Nil,
        NilOrVal::Nil,
        Address { id: 0xff },
        Some(Extension { data: vec![7, 8] }),
    );
    let expected: Vec<u8> = vec![
        1, 1, // vote, precommit
        1, 0, 0, 0, 0, 0, 0, 0, // height
        0, // nil round
        0, // nil value
        0, 0, 0, 0, 0, 0, 0, 0xff, // voter
        1, 0, 0, 0, 0, 0, 0, 0, 2, 7, 8, // extension
    ];
    assert_eq!(encode_vote(&v), expected);
}

#[test]
fn proposal_encoding_exact_bytes() {
    let p = MalachiteContext::new_proposal(
        Height::new(2),
        Round::new(0x01020304),
        Value { id: ValueId { digest: 9 }, payload: vec![0xaa] },
        Round::Nil,
        Address { id: 5 },
    );
    let expected: Vec<u8> = vec![
        2, // proposal
        0, 0, 0, 0, 0, 0, 0, 2, // height
        1, 1, 2, 3, 4, // round
        0, 0, 0, 0, 0, 0, 0, 9, // value id
        0, 0, 0, 0, 0, 0, 0, 1, 0xaa, // payload
        0, // nil lock round
        0, 0, 0, 0, 0, 0, 0, 5, // proposer
    ];
    assert_eq!(encode_proposal(&p), expected);
}

#[test]
fn encoding_twice_gives_identical_bytes() {
    let make = || {
        MalachiteContext::new_precommit(
            Height::new(44),
            Round::new(3),
            NilOrVal::Val(ValueId { digest: 123456789 }),
            Address { id: 8 },
            Some(Extension { data: vec![1, 2, 3, 4] }),
        )
    };
    let a = make();
    let b = make();
    assert_eq!(encode_vote(&a), encode_vote(&a));
    assert_eq!(encode_vote(&a), encode_vote(&b));
    let p = || {
        MalachiteContext::new_proposal(
            Height::new(44),
            Round::new(3),
            Value { id: ValueId { digest: 1 }, payload: vec![5; 40] },
            Round::new(1),
            Address { id: 8 },
        )
    };
    assert_eq!(encode_proposal(&p()), encode_proposal(&p()));
}

#[test]
fn prevote_and_precommit_encode_differently() {
    let a = MalachiteContext::new_prevote(Height::new(1), Round::new(0), NilOrVal::Nil, Address { id: 1 });
    let b = MalachiteContext::new_precommit(Height::new(1), Round::new(0), NilOrVal::Nil, Address { id: 1 }, None);
    assert_ne!(encode_vote(&a), encode_vote(&b));
}

#[test]
fn absent_and_empty_extension_encode_differently() {
    let a = MalachiteContext::new_precommit(Height::new(1), Round::new(0), NilOrVal::Nil, Address { id: 1 }, None);
    let b = MalachiteContext::new_precommit(
        Height::new(1),
        Round::new(0),
        NilOrVal::Nil,
        Address { id: 1 },
        Some(Extension { data: vec![] }),
    );
    assert_ne!(encode_vote(&a), encode_vote(&b));
}

#[test]
fn nil_and_zero_round_encode_differently() {
    let a = MalachiteContext::new_prevote(Height::new(1), Round::Nil, NilOrVal::Nil, Address { id: 1 });
    let b = MalachiteContext::new_prevote(Height::new(1), Round::new(0), NilOrVal::Nil, Address { id: 1 });
    assert_ne!(encode_vote(&a), encode_vote(&b));
}
