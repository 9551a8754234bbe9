use vstd::prelude::*;
use crate::ids::account_of;
use crate::registry::{InsertError, bounded_unique, inserted};
use crate::seeds::seed_authority;
use crate::types::{CompositeStruct, EventView};

verus! {

/// The whole state of the staking logic, over byte sequences.
pub struct StakingView {
    /// Staked candidates, in insertion order.
    pub candidates: Seq<Seq<u8>>,
    /// Active block-production authorities.
    pub authorities: Seq<Seq<u8>>,
    /// Collators marked invulnerable.
    pub collators: Seq<Seq<u8>>,
    /// The block at which the next reconciliation runs; absent before the first block.
    pub next_block_number: Option<u32>,
    /// The single stored example value.
    pub something: Option<CompositeStruct>,
    /// Notifications deposited so far.
    pub events: Seq<EventView>,
    pub block_interval: u32,
    pub seeds: Seq<Seq<u8>>,
    pub max_candidates: u32,
    pub max_authorities: u32,
    pub max_collators: u32,
}

/// Every registry is duplicate-free and within its capacity.
pub open spec fn valid(v: StakingView) -> bool {
    &&& bounded_unique(v.candidates, v.max_candidates)
    &&& bounded_unique(v.authorities, v.max_authorities)
    &&& bounded_unique(v.collators, v.max_collators)
}

/// Adds a candidate, with its notification.
pub open spec fn with_candidate(v: StakingView, c: Seq<u8>) -> Result<StakingView, InsertError> {
    match inserted(v.candidates, c, v.max_candidates) {
        Ok(n) => Ok(
            StakingView {
                candidates: n,
                events: v.events.push(EventView::CandidateAdded { candidate: c }),
                ..v
            },
        ),
        Err(e) => Err(e),
    }
}

/// Adds an authority, with its notification.
pub open spec fn with_authority(v: StakingView, a: Seq<u8>) -> Result<StakingView, InsertError> {
    match inserted(v.authorities, a, v.max_authorities) {
        Ok(n) => Ok(
            StakingView {
                authorities: n,
                events: v.events.push(EventView::AuthorityAdded { authority: a }),
                ..v
            },
        ),
        Err(e) => Err(e),
    }
}

/// Adds a collator, with its notification.
pub open spec fn with_collator(v: StakingView, c: Seq<u8>) -> Result<StakingView, InsertError> {
    match inserted(v.collators, c, v.max_collators) {
        Ok(n) => Ok(
            StakingView {
                collators: n,
                events: v.events.push(EventView::CollatorAdded { collator: c }),
                ..v
            },
        ),
        Err(e) => Err(e),
    }
}

/// Removes the first occurrence of `x` from `s`, if any.
pub open spec fn removed(s: Seq<Seq<u8>>, x: Seq<u8>) -> Option<Seq<Seq<u8>>> {
    match s.index_of_first(x) {
        Some(p) => Some(s.remove(p)),
        None => None,
    }
}

/// Removes a candidate, with its notification.
pub open spec fn without_candidate(v: StakingView, c: Seq<u8>) -> Option<StakingView> {
    match removed(v.candidates, c) {
        Some(n) => Some(
            StakingView {
                candidates: n,
                events: v.events.push(EventView::CandidateRemoved { candidate: c }),
                ..v
            },
        ),
        None => None,
    }
}

/// Removes an authority, with its notification.
pub open spec fn without_authority(v: StakingView, a: Seq<u8>) -> Option<StakingView> {
    match removed(v.authorities, a) {
        Some(n) => Some(
            StakingView {
                authorities: n,
                events: v.events.push(EventView::AuthorityRemoved { authority: a }),
                ..v
            },
        ),
        None => None,
    }
}

/// The state after the first `n` candidates have been offered to the
/// collator registry, each offer on its own and a refused one ignored.
pub open spec fn merge_prefix(v: StakingView, n: int) -> StakingView
    decreases n,
{
    if n <= 0 {
        v
    } else {
        let p = merge_prefix(v, n - 1);
        match with_collator(p, account_of(v.candidates[n - 1])) {
            Ok(w) => w,
            Err(_) => p,
        }
    }
}

/// The state after every candidate has been offered to the collator registry.
pub open spec fn merged(v: StakingView) -> StakingView {
    merge_prefix(v, v.candidates.len() as int)
}

/// The state after the first `n` seeds have been offered to the candidate
/// registry; malformed seeds and refused offers are ignored.
pub open spec fn bootstrap_prefix(v: StakingView, n: int) -> StakingView
    decreases n,
{
    if n <= 0 {
        v
    } else {
        let p = bootstrap_prefix(v, n - 1);
        match seed_authority(v.seeds[n - 1]) {
            Some(a) => match with_candidate(p, a) {
                Ok(w) => w,
                Err(_) => p,
            },
            None => p,
        }
    }
}

/// The state after every seed has been offered to the candidate registry.
pub open spec fn bootstrapped(v: StakingView) -> StakingView {
    bootstrap_prefix(v, v.seeds.len() as int)
}

/// The next reconciliation is set `block_interval` blocks after `b`.
pub open spec fn rescheduled(v: StakingView, b: u32) -> StakingView {
    StakingView { next_block_number: Some((b + v.block_interval) as u32), ..v }
}

/// The per-block hook at block `b`: bootstrap on the first block, reconcile
/// when `b` is the scheduled block, and otherwise leave everything alone.
pub open spec fn hook(v: StakingView, b: u32) -> StakingView {
    match v.next_block_number {
        None => rescheduled(bootstrapped(v), b),
        Some(t) => if b == t {
            rescheduled(merged(v), b)
        } else {
            v
        },
    }
}

/// Reconciling touches only the collator registry and the notifications.
pub proof fn lemma_merge_prefix_frame(v: StakingView, n: int)
    ensures
        merge_prefix(v, n).candidates == v.candidates,
        merge_prefix(v, n).authorities == v.authorities,
        merge_prefix(v, n).next_block_number == v.next_block_number,
        merge_prefix(v, n).something == v.something,
        merge_prefix(v, n).block_interval == v.block_interval,
        merge_prefix(v, n).seeds == v.seeds,
        merge_prefix(v, n).max_candidates == v.max_candidates,
        merge_prefix(v, n).max_authorities == v.max_authorities,
        merge_prefix(v, n).max_collators == v.max_collators,
    decreases n,
{
    if n > 0 {
        lemma_merge_prefix_frame(v, n - 1);
    }
}

/// Bootstrapping touches only the candidate registry and the notifications.
pub proof fn lemma_bootstrap_prefix_frame(v: StakingView, n: int)
    ensures
        bootstrap_prefix(v, n).authorities == v.authorities,
        bootstrap_prefix(v, n).collators == v.collators,
        bootstrap_prefix(v, n).next_block_number == v.next_block_number,
        bootstrap_prefix(v, n).something == v.something,
        bootstrap_prefix(v, n).block_interval == v.block_interval,
        bootstrap_prefix(v, n).seeds == v.seeds,
        bootstrap_prefix(v, n).max_candidates == v.max_candidates,
        bootstrap_prefix(v, n).max_authorities == v.max_authorities,
        bootstrap_prefix(v, n).max_collators == v.max_collators,
    decreases n,
{
    if n > 0 {
        lemma_bootstrap_prefix_frame(v, n - 1);
    }
}

} // verus!
