use vstd::prelude::*;
use crate::ids::{AccountId, AuthorityId};

verus! {

/// Settings of the staking logic.
pub struct Config {
    /// Blocks between two scheduled reconciliations.
    pub block_interval: u32,
    /// Authority keys that are always staked, as hexadecimal text with or
    /// without a `0x` prefix.
    pub invulnerables: Vec<&'static str>,
    /// Capacity of the candidate registry.
    pub max_candidates: u32,
    /// Capacity of the authority registry.
    pub max_authorities: u32,
    /// Capacity of the collator registry.
    pub max_collators: u32,
}

/// Who dispatched a call.
pub enum Origin {
    Root,
    Signed(AccountId),
    Unsigned,
}

/// A single stored block number.
#[derive(Clone, Copy, PartialEq, Eq, Structural)]
pub struct CompositeStruct {
    pub block_number: u32,
}

/// Balances of an account, as the ledger reports them.
#[derive(Clone, Copy, PartialEq, Eq, Structural)]
pub struct AccountData {
    pub free: u128,
    pub reserved: u128,
    pub frozen: u128,
    pub flags: u128,
}

/// Errors of this module.
#[derive(Clone, Copy, PartialEq, Eq, Structural, Debug)]
pub enum Error {
    NoneValue,
    StorageOverflow,
    ExceedsMaxCandidates,
    ErrorAddingCandidate,
    CandidateAlreadyExist,
    ErrorAddingAuthority,
    ErrorRemovingAuthority,
    AuthorityAlreadyExist,
    AuthorityDoesNotExist,
    AuthorityDoesNotExistInCandidates,
    ExceedsMaxAuthorities,
    CollatorAlreadyExist,
    CollatorDoesNotExist,
    CollatorDoesNotExistInCandidates,
    ExceedsMaxCollators,
}

/// Why a dispatched call was rejected.
#[derive(Clone, Copy, PartialEq, Eq, Structural, Debug)]
pub enum DispatchError {
    /// The call needs a signed origin.
    BadOrigin,
    /// One of this module's errors.
    Module(Error),
    /// The candidate to stake is already staked.
    CandidateExists,
    /// The candidate registry is full.
    MaxCandidatesReached,
    /// The candidate to unstake is not staked.
    CandidateMissing,
}

impl DispatchError {
    /// A short description of the rejection.
    pub fn message(&self) -> &'static str {
        match self {
            DispatchError::BadOrigin => "Bad origin",
            DispatchError::Module(_) => "Module error",
            DispatchError::CandidateExists => "Candidate already exists",
            DispatchError::MaxCandidatesReached => "Max candidates reached",
            DispatchError::CandidateMissing => "Candidate does not exist",
        }
    }
}

pub type DispatchResult = Result<(), DispatchError>;

/// Notifications of what the module did.
pub enum Event {
    SomethingStored { block_number: u32, who: AccountId },
    AuthoritiesRetrieved { authorities: Vec<AuthorityId> },
    ValidatorsRetrieved { validators: Vec<AccountId> },
    MaxAuthoritiesRetrieved { max_authorities: u32 },
    CandidateAdded { candidate: AuthorityId },
    CandidateRemoved { candidate: AuthorityId },
    AuthorityAdded { authority: AuthorityId },
    AuthorityRemoved { authority: AuthorityId },
    CollatorAdded { collator: AccountId },
    TreasuryAccountRetrieved { treasury: AccountId, data: AccountData },
}

/// What an event says, over byte sequences.
pub enum EventView {
    SomethingStored { block_number: u32, who: Seq<u8> },
    AuthoritiesRetrieved { authorities: Seq<Seq<u8>> },
    ValidatorsRetrieved { validators: Seq<Seq<u8>> },
    MaxAuthoritiesRetrieved { max_authorities: u32 },
    CandidateAdded { candidate: Seq<u8> },
    CandidateRemoved { candidate: Seq<u8> },
    AuthorityAdded { authority: Seq<u8> },
    AuthorityRemoved { authority: Seq<u8> },
    CollatorAdded { collator: Seq<u8> },
    TreasuryAccountRetrieved { treasury: Seq<u8>, data: AccountData },
}

impl View for Event {
    type V = EventView;

    open spec fn view(&self) -> EventView {
        match self {
            Event::SomethingStored { block_number, who } => EventView::SomethingStored {
                block_number: *block_number,
                who: who@,
            },
            Event::AuthoritiesRetrieved { authorities } => EventView::AuthoritiesRetrieved {
                authorities: authorities@.map_values(|a: AuthorityId| a@),
            },
            Event::ValidatorsRetrieved { validators } => EventView::ValidatorsRetrieved {
                validators: validators@.map_values(|a: AccountId| a@),
            },
            Event::MaxAuthoritiesRetrieved { max_authorities } => EventView::MaxAuthoritiesRetrieved {
                max_authorities: *max_authorities,
            },
            Event::CandidateAdded { candidate } => EventView::CandidateAdded { candidate: candidate@ },
            Event::CandidateRemoved { candidate } => EventView::CandidateRemoved {
                candidate: candidate@,
            },
            Event::AuthorityAdded { authority } => EventView::AuthorityAdded { authority: authority@ },
            Event::AuthorityRemoved { authority } => EventView::AuthorityRemoved {
                authority: authority@,
            },
            Event::CollatorAdded { collator } => EventView::CollatorAdded { collator: collator@ },
            Event::TreasuryAccountRetrieved { treasury, data } => EventView::TreasuryAccountRetrieved {
                treasury: treasury@,
                data: *data,
            },
        }
    }
}

} // verus!
