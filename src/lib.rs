//! Binding layer between a round-based BFT consensus engine and an execution
//! client: the domain value types the engine runs on, deterministic proposer
//! selection and vote/proposal construction, a canonical byte encoding for
//! signed messages, and the header rules a decided block must pass.
pub mod codec;
pub mod consensus;
pub mod context;
pub mod engine_types;
pub mod types;

pub use consensus::{ChainSpec, ConsensusError, MalachiteConsensus, MalachiteConsensusBuilder, SealedHeader};
pub use context::MalachiteContext;
pub use informalsystems_malachitebft_core_types::{NilOrVal, Round, VoteType};
pub use types::{Address, ConfigError, Extension, Height, Proposal, Validator, ValidatorSet, Value, ValueId, Vote};
