//! The execution client's validation seat: header rules that a block agreed
//! on by the engine must pass before the client commits it.
use vstd::prelude::*;

use crate::types::ConfigError;
use std::sync::Arc;

verus! {

/// Chain parameters that the header rules read.
#[derive(Clone, Copy, Debug, PartialEq, Eq, Structural, Default)]
pub struct ChainSpec {
    pub chain_id: u64,
    /// Largest allowed `extra_data`, in bytes.
    pub max_extra_data_size: u64,
    /// Smallest allowed gas limit.
    pub min_gas_limit: u64,
    /// A child's gas limit moves by less than the parent's divided by this.
    pub gas_limit_bound_divisor: u64,
}

impl ChainSpec {
    pub open spec fn wf(&self) -> bool {
        self.gas_limit_bound_divisor > 0
    }
}

/// A block header together with its hash.
#[derive(Clone, Debug, PartialEq, Eq)]
pub struct SealedHeader {
    pub number: u64,
    pub hash: u64,
    pub parent_hash: u64,
    pub timestamp: u64,
    pub gas_limit: u64,
    pub gas_used: u64,
    pub extra_data: Vec<u8>,
}

/// Why a header is rejected.
#[derive(Clone, Copy, Debug, PartialEq, Eq, Structural)]
pub enum ConsensusError {
    /// More gas used than the header's own limit.
    HeaderGasUsedExceedsGasLimit,
    /// `extra_data` longer than the chain allows.
    ExtraDataExceedsMax,
    /// Gas limit under the chain's minimum.
    GasLimitTooLow,
    /// Block number is not the parent's plus one.
    ParentBlockNumberMismatch,
    /// `parent_hash` is not the parent's hash.
    ParentHashMismatch,
    /// Timestamp not later than the parent's.
    TimestampIsInPast,
    /// Gas limit moved too far from the parent's.
    GasLimitInvalid,
}

/// The first rule a header breaks on its own, if any.
pub open spec fn standalone_error(spec: ChainSpec, h: SealedHeader) -> Option<ConsensusError> {
    if h.gas_used > h.gas_limit {
        Some(ConsensusError::HeaderGasUsedExceedsGasLimit)
    } else if h.extra_data@.len() > spec.max_extra_data_size {
        Some(ConsensusError::ExtraDataExceedsMax)
    } else if h.gas_limit < spec.min_gas_limit {
        Some(ConsensusError::GasLimitTooLow)
    } else {
        None
    }
}

/// The gas limit of a child stays within the bound set by its parent's.
pub open spec fn gas_limit_in_bounds(spec: ChainSpec, h: SealedHeader, parent: SealedHeader) -> bool
    recommends
        spec.wf(),
{
    let bound = parent.gas_limit as int / spec.gas_limit_bound_divisor as int;
    let diff = h.gas_limit as int - parent.gas_limit as int;
    -bound < diff < bound || diff == 0
}

/// The first rule a header breaks against its parent, if any.
pub open spec fn parent_error(spec: ChainSpec, h: SealedHeader, parent: SealedHeader) -> Option<ConsensusError>
    recommends
        spec.wf(),
{
    if h.number != parent.number + 1 {
        Some(ConsensusError::ParentBlockNumberMismatch)
    } else if h.parent_hash != parent.hash {
        Some(ConsensusError::ParentHashMismatch)
    } else if h.timestamp <= parent.timestamp {
        Some(ConsensusError::TimestampIsInPast)
    } else if !gas_limit_in_bounds(spec, h, parent) {
        Some(ConsensusError::GasLimitInvalid)
    } else {
        None
    }
}

/// The first rule a header breaks, standalone rules before parent rules.
pub open spec fn header_error(spec: ChainSpec, h: SealedHeader, parent: SealedHeader) -> Option<ConsensusError>
    recommends
        spec.wf(),
{
    match standalone_error(spec, h) {
        Some(e) => Some(e),
        None => parent_error(spec, h, parent),
    }
}

/// Header validation for this chain, bound to its parameters.
#[derive(Clone, Debug)]
pub struct MalachiteConsensus {
    chain_spec: Arc<ChainSpec>,
}

impl MalachiteConsensus {
    pub closed spec fn spec(&self) -> ChainSpec {
        *self.chain_spec
    }

    pub open spec fn wf(&self) -> bool {
        self.spec().wf()
    }

    pub fn new(chain_spec: Arc<ChainSpec>) -> (r: MalachiteConsensus)
        requires
            chain_spec.wf(),
        ensures
            r.spec() == *chain_spec,
            r.wf(),
    {
        MalachiteConsensus { chain_spec }
    }

    pub fn chain_spec(&self) -> (r: &ChainSpec)
        ensures
            *r == self.spec(),
    {
        &*self.chain_spec
    }

    /// Checks the rules a header must meet on its own.
    pub fn validate_header(&self, header: &SealedHeader) -> (r: Result<(), ConsensusError>)
        ensures
            r is Ok <==> standalone_error(self.spec(), *header) is None,
            r matches Err(e) ==> standalone_error(self.spec(), *header) == Some(e),
    {
        let spec: &ChainSpec = &*self.chain_spec;
        if header.gas_used > header.gas_limit {
            return Err(ConsensusError::HeaderGasUsedExceedsGasLimit);
        }
        if header.extra_data.len() as u64 > spec.max_extra_data_size {
            return Err(ConsensusError::ExtraDataExceedsMax);
        }
        if header.gas_limit < spec.min_gas_limit {
            return Err(ConsensusError::GasLimitTooLow);
        }
        Ok(())
    }

    /// Checks the rules that link a header to its parent.
    pub fn validate_header_against_parent(
        &self,
        header: &SealedHeader,
        parent: &SealedHeader,
    ) -> (r: Result<(), ConsensusError>)
        requires
            self.wf(),
        ensures
            r is Ok <==> parent_error(self.spec(), *header, *parent) is None,
            r matches Err(e) ==> parent_error(self.spec(), *header, *parent) == Some(e),
    {
        let spec: &ChainSpec = &*self.chain_spec;
        if parent.number == u64::MAX || header.number != parent.number + 1 {
            return Err(ConsensusError::ParentBlockNumberMismatch);
        }
        if header.parent_hash != parent.hash {
            return Err(ConsensusError::ParentHashMismatch);
        }
        if header.timestamp <= parent.timestamp {
            return Err(ConsensusError::TimestampIsInPast);
        }
        let bound = parent.gas_limit / spec.gas_limit_bound_divisor;
        if header.gas_limit > parent.gas_limit && header.gas_limit - parent.gas_limit >= bound {
            return Err(ConsensusError::GasLimitInvalid);
        }
        if header.gas_limit < parent.gas_limit && parent.gas_limit - header.gas_limit >= bound {
            return Err(ConsensusError::GasLimitInvalid);
        }
        Ok(())
    }

    /// Accepts a header exactly when it breaks none of the chain's rules,
    /// and otherwise reports the first rule it breaks.
    pub fn validate(&self, header: &SealedHeader, parent: &SealedHeader) -> (r: Result<(), ConsensusError>)
        requires
            self.wf(),
        ensures
            r is Ok <==> header_error(self.spec(), *header, *parent) is None,
            r matches Err(e) ==> header_error(self.spec(), *header, *parent) == Some(e),
    {
        match self.validate_header(header) {
            Err(e) => Err(e),
            Ok(()) => self.validate_header_against_parent(header, parent),
        }
    }
}

/// Builds the chain's header validation from its parameters at node start.
#[derive(Clone, Copy, Debug, Default)]
pub struct MalachiteConsensusBuilder {}

impl MalachiteConsensusBuilder {
    pub fn new() -> (r: MalachiteConsensusBuilder) {
        MalachiteConsensusBuilder {}
    }

    /// Unusable chain parameters stop the node from starting.
    pub fn build_consensus(self, chain_spec: Arc<ChainSpec>) -> (r: Result<MalachiteConsensus, ConfigError>)
        ensures
            chain_spec.wf() <==> r is Ok,
            r matches Ok(c) ==> c.spec() == *chain_spec && c.wf(),
            r matches Err(e) ==> e == ConfigError::InvalidChainSpec,
    {
        if chain_spec.gas_limit_bound_divisor == 0 {
            return Err(ConfigError::InvalidChainSpec);
        }
        Ok(MalachiteConsensus::new(chain_spec))
    }
}

} // verus!
