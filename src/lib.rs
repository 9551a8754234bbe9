//! Staking candidates, block-production authorities and collator invulnerables,
//! kept bounded and duplicate-free and reconciled on a block-driven schedule
//! and at each session boundary.

pub mod ids;
pub mod laws;
pub mod model;
pub mod pallet;
pub mod registry;
pub mod seeds;
pub mod types;

pub use ids::{AccountId, AuthorityId};
pub use pallet::Pallet;
pub use seeds::decode_seed;
pub use types::{AccountData, CompositeStruct, Config, DispatchError, DispatchResult, Error, Event, Origin};
