//! The consensus engine's own value types, as this library sees them.
use vstd::prelude::*;

use informalsystems_malachitebft_core_types::{NilOrVal, Round, VoteType};

verus! {

/// The engine's round: `Nil` ("no round") or a defined round number.
#[verifier::external_type_specification]
pub struct ExRound(Round);

/// The engine's tagged union of "vote for nothing" and "vote for a value".
#[verifier::external_type_specification]
#[verifier::reject_recursive_types(T)]
pub struct ExNilOrVal<T>(NilOrVal<T>);

/// The engine's vote kinds.
#[verifier::external_type_specification]
pub struct ExVoteType(VoteType);

/// Relies on `Round::as_u32`: `None` for `Nil`, the round number otherwise.
pub assume_specification[ Round::as_u32 ](r: &Round) -> (res: Option<u32>)
    ensures
        res == (match *r {
            Round::Nil => None,
            Round::Some(n) => Some(n),
        }),
;

} // verus!
