//! Canonical byte encoding of what crosses the signing boundary. Each message
//! has exactly one encoding, so equal messages always sign the same bytes.
//!
//! Integers are big-endian; a byte string is its length (eight bytes) and its
//! bytes; an optional item is a tag byte (0 absent, 1 present) and the item.
use vstd::prelude::*;

use crate::types::{Extension, Proposal, ValueId, Vote};
use informalsystems_malachitebft_core_types::{NilOrVal, Round, VoteType};

verus! {

/// Leading byte of an encoded vote.
pub const VOTE_TAG: u8 = 1;

/// Leading byte of an encoded proposal.
pub const PROPOSAL_TAG: u8 = 2;

pub open spec fn u64_bytes(x: u64) -> Seq<u8> {
    seq![
        (x >> 56u64) as u8,
        (x >> 48u64) as u8,
        (x >> 40u64) as u8,
        (x >> 32u64) as u8,
        (x >> 24u64) as u8,
        (x >> 16u64) as u8,
        (x >> 8u64) as u8,
        x as u8,
    ]
}

pub open spec fn u32_bytes(x: u32) -> Seq<u8> {
    seq![(x >> 24u32) as u8, (x >> 16u32) as u8, (x >> 8u32) as u8, x as u8]
}

pub open spec fn round_bytes(r: Round) -> Seq<u8> {
    match r {
        Round::Nil => seq![0u8],
        Round::Some(n) => seq![1u8] + u32_bytes(n),
    }
}

pub open spec fn vote_type_byte(t: VoteType) -> u8 {
    match t {
        VoteType::Prevote => 0,
        VoteType::Precommit => 1,
    }
}

pub open spec fn value_id_bytes(v: NilOrVal<ValueId>) -> Seq<u8> {
    match v {
        NilOrVal::Nil => seq![0u8],
        NilOrVal::Val(id) => seq![1u8] + u64_bytes(id.digest),
    }
}

pub open spec fn byte_string(b: Seq<u8>) -> Seq<u8> {
    u64_bytes(b.len() as u64) + b
}

pub open spec fn extension_bytes(e: Option<Extension>) -> Seq<u8> {
    match e {
        None => seq![0u8],
        Some(x) => seq![1u8] + byte_string(x.data@),
    }
}

/// The encoding of a vote: tag, type, height, round, value id, voter and
/// extension, in that order.
pub open spec fn vote_bytes(v: Vote) -> Seq<u8> {
    seq![VOTE_TAG, vote_type_byte(v.vote_type)]
        + u64_bytes(v.height.number)
        + round_bytes(v.round)
        + value_id_bytes(v.value_id)
        + u64_bytes(v.voter.id)
        + extension_bytes(v.extension)
}

/// The encoding of a proposal: tag, height, round, value id, value payload,
/// lock round and proposer, in that order.
pub open spec fn proposal_bytes(p: Proposal) -> Seq<u8> {
    seq![PROPOSAL_TAG]
        + u64_bytes(p.height.number)
        + round_bytes(p.round)
        + u64_bytes(p.value.id.digest)
        + byte_string(p.value.payload@)
        + round_bytes(p.pol_round)
        + u64_bytes(p.proposer.id)
}

fn put_u64(out: &mut Vec<u8>, x: u64)
    ensures
        final(out)@ == old(out)@ + u64_bytes(x),
{
    out.push((x >> 56u64) as u8);
    out.push((x >> 48u64) as u8);
    out.push((x >> 40u64) as u8);
    out.push((x >> 32u64) as u8);
    out.push((x >> 24u64) as u8);
    out.push((x >> 16u64) as u8);
    out.push((x >> 8u64) as u8);
    out.push(x as u8);
    assert(final(out)@ =~= old(out)@ + u64_bytes(x));
}

fn put_round(out: &mut Vec<u8>, r: Round)
    ensures
        final(out)@ == old(out)@ + round_bytes(r),
{
    match r {
        Round::Nil => {
            out.push(0u8);
            assert(final(out)@ =~= old(out)@ + round_bytes(r));
        },
        Round::Some(n) => {
            out.push(1u8);
            out.push((n >> 24u32) as u8);
            out.push((n >> 16u32) as u8);
            out.push((n >> 8u32) as u8);
            out.push(n as u8);
            assert(final(out)@ =~= old(out)@ + round_bytes(r));
        },
    }
}

fn put_byte_string(out: &mut Vec<u8>, b: &Vec<u8>)
    ensures
        final(out)@ == old(out)@ + byte_string(b@),
{
    put_u64(out, b.len() as u64);
    let ghost start = out@;
    let mut i: usize = 0;
    while i < b.len()
        invariant
            0 <= i <= b@.len(),
            out@ == start + b@.subrange(0, i as int),
        decreases b@.len() - i,
    {
        out.push(b[i]);
        i = i + 1;
        assert(out@ =~= start + b@.subrange(0, i as int));
    }
    assert(b@.subrange(0, b@.len() as int) =~= b@);
    assert(final(out)@ =~= old(out)@ + byte_string(b@));
}

/// Canonical bytes of a vote.
pub fn encode_vote(v: &Vote) -> (r: Vec<u8>)
    ensures
        r@ == vote_bytes(*v),
{
    let mut out: Vec<u8> = Vec::new();
    out.push(VOTE_TAG);
    let t: u8 = match v.vote_type {
        VoteType::Prevote => 0,
        VoteType::Precommit => 1,
    };
    out.push(t);
    put_u64(&mut out, v.height.number);
    put_round(&mut out, v.round);
    match &v.value_id {
        NilOrVal::Nil => {
            out.push(0u8);
        },
        NilOrVal::Val(id) => {
            out.push(1u8);
            put_u64(&mut out, id.digest);
        },
    }
    put_u64(&mut out, v.voter.id);
    match &v.extension {
        None => {
            out.push(0u8);
        },
        Some(e) => {
            out.push(1u8);
            put_byte_string(&mut out, &e.data);
        },
    }
    assert(out@ =~= vote_bytes(*v));
    out
}

/// Canonical bytes of a proposal.
pub fn encode_proposal(p: &Proposal) -> (r: Vec<u8>)
    ensures
        r@ == proposal_bytes(*p),
{
    let mut out: Vec<u8> = Vec::new();
    out.push(PROPOSAL_TAG);
    put_u64(&mut out, p.height.number);
    put_round(&mut out, p.round);
    put_u64(&mut out, p.value.id.digest);
    put_byte_string(&mut out, &p.value.payload);
    put_round(&mut out, p.pol_round);
    put_u64(&mut out, p.proposer.id);
    assert(out@ =~= proposal_bytes(*p));
    out
}

proof fn lemma_u64_bytes_injective(x: u64, y: u64)
    requires
        u64_bytes(x) == u64_bytes(y),
    ensures
        x == y,
{
    assert(u64_bytes(x)[0] == u64_bytes(y)[0]);
    assert(u64_bytes(x)[1] == u64_bytes(y)[1]);
    assert(u64_bytes(x)[2] == u64_bytes(y)[2]);
    assert(u64_bytes(x)[3] == u64_bytes(y)[3]);
    assert(u64_bytes(x)[4] == u64_bytes(y)[4]);
    assert(u64_bytes(x)[5] == u64_bytes(y)[5]);
    assert(u64_bytes(x)[6] == u64_bytes(y)[6]);
    assert(u64_bytes(x)[7] == u64_bytes(y)[7]);
    assert(x == y) by (bit_vector)
        requires
            (x >> 56u64) as u8 == (y >> 56u64) as u8,
            (x >> 48u64) as u8 == (y >> 48u64) as u8,
            (x >> 40u64) as u8 == (y >> 40u64) as u8,
            (x >> 32u64) as u8 == (y >> 32u64) as u8,
            (x >> 24u64) as u8 == (y >> 24u64) as u8,
            (x >> 16u64) as u8 == (y >> 16u64) as u8,
            (x >> 8u64) as u8 == (y >> 8u64) as u8,
            x as u8 == y as u8,
    ;
}

proof fn lemma_u32_bytes_injective(x: u32, y: u32)
    requires
        u32_bytes(x) == u32_bytes(y),
    ensures
        x == y,
{
    assert(u32_bytes(x)[0] == u32_bytes(y)[0]);
    assert(u32_bytes(x)[1] == u32_bytes(y)[1]);
    assert(u32_bytes(x)[2] == u32_bytes(y)[2]);
    assert(u32_bytes(x)[3] == u32_bytes(y)[3]);
    assert(x == y) by (bit_vector)
        requires
            (x >> 24u32) as u8 == (y >> 24u32) as u8,
            (x >> 16u32) as u8 == (y >> 16u32) as u8,
            (x >> 8u32) as u8 == (y >> 8u32) as u8,
            x as u8 == y as u8,
    ;
}

/// Splitting two equal concatenations at a common length.
proof fn lemma_split(a1: Seq<u8>, b1: Seq<u8>, a2: Seq<u8>, b2: Seq<u8>)
    requires
        a1 + b1 == a2 + b2,
        a1.len() == a2.len(),
    ensures
        a1 == a2,
        b1 == b2,
{
    assert(a1 =~= (a1 + b1).subrange(0, a1.len() as int));
    assert(a2 =~= (a2 + b2).subrange(0, a2.len() as int));
    assert(b1 =~= (a1 + b1).subrange(a1.len() as int, (a1 + b1).len() as int));
    assert(b2 =~= (a2 + b2).subrange(a2.len() as int, (a2 + b2).len() as int));
}

proof fn lemma_u64_prefix(x: u64, b1: Seq<u8>, y: u64, b2: Seq<u8>)
    requires
        u64_bytes(x) + b1 == u64_bytes(y) + b2,
    ensures
        x == y,
        b1 == b2,
{
    lemma_split(u64_bytes(x), b1, u64_bytes(y), b2);
    lemma_u64_bytes_injective(x, y);
}

proof fn lemma_round_prefix(r1: Round, b1: Seq<u8>, r2: Round, b2: Seq<u8>)
    requires
        round_bytes(r1) + b1 == round_bytes(r2) + b2,
    ensures
        r1 == r2,
        b1 == b2,
{
    assert((round_bytes(r1) + b1)[0] == round_bytes(r1)[0]);
    assert((round_bytes(r2) + b2)[0] == round_bytes(r2)[0]);
    lemma_split(round_bytes(r1), b1, round_bytes(r2), b2);
    if let (Round::Some(n1), Round::Some(n2)) = (r1, r2) {
        lemma_split(seq![1u8], u32_bytes(n1), seq![1u8], u32_bytes(n2));
        lemma_u32_bytes_injective(n1, n2);
    }
}

proof fn lemma_value_id_prefix(v1: NilOrVal<ValueId>, b1: Seq<u8>, v2: NilOrVal<ValueId>, b2: Seq<u8>)
    requires
        value_id_bytes(v1) + b1 == value_id_bytes(v2) + b2,
    ensures
        v1 == v2,
        b1 == b2,
{
    assert((value_id_bytes(v1) + b1)[0] == value_id_bytes(v1)[0]);
    assert((value_id_bytes(v2) + b2)[0] == value_id_bytes(v2)[0]);
    lemma_split(value_id_bytes(v1), b1, value_id_bytes(v2), b2);
    if let (NilOrVal::Val(i1), NilOrVal::Val(i2)) = (v1, v2) {
        lemma_split(seq![1u8], u64_bytes(i1.digest), seq![1u8], u64_bytes(i2.digest));
        lemma_u64_bytes_injective(i1.digest, i2.digest);
    }
}

proof fn lemma_byte_string_prefix(s1: Seq<u8>, b1: Seq<u8>, s2: Seq<u8>, b2: Seq<u8>)
    requires
        byte_string(s1) + b1 == byte_string(s2) + b2,
        s1.len() <= u64::MAX,
        s2.len() <= u64::MAX,
    ensures
        s1 == s2,
        b1 == b2,
{
    assert(byte_string(s1) + b1 =~= u64_bytes(s1.len() as u64) + (s1 + b1));
    assert(byte_string(s2) + b2 =~= u64_bytes(s2.len() as u64) + (s2 + b2));
    lemma_u64_prefix(s1.len() as u64, s1 + b1, s2.len() as u64, s2 + b2);
    lemma_split(s1, b1, s2, b2);
}

/// The vote encoding read from the left, one field after another.
proof fn lemma_vote_bytes_fields(v: Vote)
    ensures
        vote_bytes(v) == seq![VOTE_TAG, vote_type_byte(v.vote_type)] + (u64_bytes(v.height.number)
            + (round_bytes(v.round) + (value_id_bytes(v.value_id) + (u64_bytes(v.voter.id)
            + extension_bytes(v.extension))))),
{
    assert(vote_bytes(v) =~= seq![VOTE_TAG, vote_type_byte(v.vote_type)] + (u64_bytes(v.height.number)
        + (round_bytes(v.round) + (value_id_bytes(v.value_id) + (u64_bytes(v.voter.id)
        + extension_bytes(v.extension))))));
}

/// The encoding is unambiguous: votes with the same bytes hold the same data,
/// so a signature over the bytes speaks for exactly one vote.
pub proof fn lemma_vote_encoding_injective(v1: Vote, v2: Vote)
    requires
        vote_bytes(v1) == vote_bytes(v2),
        v1.extension matches Some(x) ==> x.data@.len() <= u64::MAX,
        v2.extension matches Some(x) ==> x.data@.len() <= u64::MAX,
    ensures
        same_vote(v1, v2),
{
    lemma_vote_bytes_fields(v1);
    lemma_vote_bytes_fields(v2);
    let h1 = seq![VOTE_TAG, vote_type_byte(v1.vote_type)];
    let h2 = seq![VOTE_TAG, vote_type_byte(v2.vote_type)];
    let rest1 = u64_bytes(v1.height.number) + (round_bytes(v1.round) + (value_id_bytes(v1.value_id)
        + (u64_bytes(v1.voter.id) + extension_bytes(v1.extension))));
    let rest2 = u64_bytes(v2.height.number) + (round_bytes(v2.round) + (value_id_bytes(v2.value_id)
        + (u64_bytes(v2.voter.id) + extension_bytes(v2.extension))));
    lemma_split(h1, rest1, h2, rest2);
    assert(h1[1] == h2[1]);
    lemma_u64_prefix(
        v1.height.number,
        round_bytes(v1.round) + (value_id_bytes(v1.value_id) + (u64_bytes(v1.voter.id) + extension_bytes(v1.extension))),
        v2.height.number,
        round_bytes(v2.round) + (value_id_bytes(v2.value_id) + (u64_bytes(v2.voter.id) + extension_bytes(v2.extension))),
    );
    lemma_round_prefix(
        v1.round,
        value_id_bytes(v1.value_id) + (u64_bytes(v1.voter.id) + extension_bytes(v1.extension)),
        v2.round,
        value_id_bytes(v2.value_id) + (u64_bytes(v2.voter.id) + extension_bytes(v2.extension)),
    );
    lemma_value_id_prefix(
        v1.value_id,
        u64_bytes(v1.voter.id) + extension_bytes(v1.extension),
        v2.value_id,
        u64_bytes(v2.voter.id) + extension_bytes(v2.extension),
    );
    lemma_u64_prefix(v1.voter.id, extension_bytes(v1.extension), v2.voter.id, extension_bytes(v2.extension));
    let e1 = extension_bytes(v1.extension);
    let e2 = extension_bytes(v2.extension);
    assert(e1[0] == e2[0]);
    if let (Some(x1), Some(x2)) = (v1.extension, v2.extension) {
        lemma_split(seq![1u8], byte_string(x1.data@), seq![1u8], byte_string(x2.data@));
        lemma_byte_string_prefix(x1.data@, Seq::empty(), x2.data@, Seq::empty());
    }
}

/// The proposal encoding read from the left, one field after another.
proof fn lemma_proposal_bytes_fields(p: Proposal)
    ensures
        proposal_bytes(p) == seq![PROPOSAL_TAG] + (u64_bytes(p.height.number) + (round_bytes(p.round)
            + (u64_bytes(p.value.id.digest) + (byte_string(p.value.payload@) + (round_bytes(p.pol_round)
            + u64_bytes(p.proposer.id)))))),
{
    assert(proposal_bytes(p) =~= seq![PROPOSAL_TAG] + (u64_bytes(p.height.number) + (round_bytes(p.round)
        + (u64_bytes(p.value.id.digest) + (byte_string(p.value.payload@) + (round_bytes(p.pol_round)
        + u64_bytes(p.proposer.id)))))));
}

/// The encoding is unambiguous: proposals with the same bytes hold the same
/// data, so a signature over the bytes speaks for exactly one proposal.
pub proof fn lemma_proposal_encoding_injective(pa: Proposal, pb: Proposal)
    requires
        proposal_bytes(pa) == proposal_bytes(pb),
        pa.value.payload@.len() <= u64::MAX,
        pb.value.payload@.len() <= u64::MAX,
    ensures
        same_proposal(pa, pb),
{
    lemma_proposal_bytes_fields(pa);
    lemma_proposal_bytes_fields(pb);
    let tail1 = round_bytes(pa.pol_round) + u64_bytes(pa.proposer.id);
    let tail2 = round_bytes(pb.pol_round) + u64_bytes(pb.proposer.id);
    let pay1 = byte_string(pa.value.payload@) + tail1;
    let pay2 = byte_string(pb.value.payload@) + tail2;
    let id1 = u64_bytes(pa.value.id.digest) + pay1;
    let id2 = u64_bytes(pb.value.id.digest) + pay2;
    let r1 = round_bytes(pa.round) + id1;
    let r2 = round_bytes(pb.round) + id2;
    lemma_split(seq![PROPOSAL_TAG], u64_bytes(pa.height.number) + r1, seq![PROPOSAL_TAG], u64_bytes(pb.height.number) + r2);
    lemma_u64_prefix(pa.height.number, r1, pb.height.number, r2);
    lemma_round_prefix(pa.round, id1, pb.round, id2);
    lemma_u64_prefix(pa.value.id.digest, pay1, pb.value.id.digest, pay2);
    lemma_byte_string_prefix(pa.value.payload@, tail1, pb.value.payload@, tail2);
    lemma_round_prefix(pa.pol_round, u64_bytes(pa.proposer.id), pb.pol_round, u64_bytes(pb.proposer.id));
    lemma_u64_prefix(pa.proposer.id, Seq::empty(), pb.proposer.id, Seq::empty());
}

/// Two votes that hold the same data, extension bytes compared by content.
pub open spec fn same_vote(a: Vote, b: Vote) -> bool {
    &&& a.vote_type == b.vote_type
    &&& a.height == b.height
    &&& a.round == b.round
    &&& a.value_id == b.value_id
    &&& a.voter == b.voter
    &&& match (a.extension, b.extension) {
        (None, None) => true,
        (Some(x), Some(y)) => x.data@ == y.data@,
        _ => false,
    }
}

/// Two proposals that hold the same data, payloads compared by content.
pub open spec fn same_proposal(a: Proposal, b: Proposal) -> bool {
    &&& a.height == b.height
    &&& a.round == b.round
    &&& a.value.id == b.value.id
    &&& a.value.payload@ == b.value.payload@
    &&& a.pol_round == b.pol_round
    &&& a.proposer == b.proposer
}

/// Encoding is deterministic: votes, and proposals, that hold the same data
/// encode to the same bytes.
pub proof fn lemma_encoding_deterministic(v1: Vote, v2: Vote, pa: Proposal, pb: Proposal)
    ensures
        same_vote(v1, v2) ==> vote_bytes(v1) == vote_bytes(v2),
        same_proposal(pa, pb) ==> proposal_bytes(pa) == proposal_bytes(pb),
{
}

} // verus!
