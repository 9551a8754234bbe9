use vstd::prelude::*;
use crate::ids::account_of;
use crate::model::{
    StakingView, bootstrap_prefix, hook, lemma_bootstrap_prefix_frame, lemma_merge_prefix_frame,
    merge_prefix, merged, valid, with_candidate, with_collator,
};
use crate::registry::{bounded_unique, inserted};
use crate::seeds::seed_authority;

verus! {

/// Every candidate of `v` among the first `n` has its account in `r`'s
/// collator registry, unless that registry is full.
pub open spec fn offered(r: StakingView, v: StakingView, n: int) -> bool {
    forall|i: int|
        0 <= i < n ==> r.collators.contains(account_of(#[trigger] v.candidates[i]))
            || r.collators.len() >= v.max_collators
}

proof fn lemma_merge_prefix_offers(v: StakingView, n: int)
    requires
        0 <= n <= v.candidates.len(),
    ensures
        offered(merge_prefix(v, n), v, n),
    decreases n,
{
    if n > 0 {
        lemma_merge_prefix_offers(v, n - 1);
        let p = merge_prefix(v, n - 1);
        lemma_merge_prefix_frame(v, n - 1);
        let x = account_of(v.candidates[n - 1]);
        match with_collator(p, x) {
            Ok(w) => {
                assert(w.collators == p.collators.push(x));
                assert forall|i: int| 0 <= i < n implies w.collators.contains(
                    account_of(#[trigger] v.candidates[i]),
                ) || w.collators.len() >= v.max_collators by {
                    if i < n - 1 {
                        if p.collators.contains(account_of(v.candidates[i])) {
                            let k = choose|k: int|
                                0 <= k < p.collators.len() && p.collators[k] == account_of(
                                    v.candidates[i],
                                );
                            assert(w.collators[k] == account_of(v.candidates[i]));
                        }
                    } else {
                        assert(w.collators[p.collators.len() as int] == x);
                    }
                }
            },
            Err(_) => {},
        }
    }
}

proof fn lemma_merge_prefix_settled(r: StakingView, m: int)
    requires
        0 <= m <= r.candidates.len(),
        offered(r, r, r.candidates.len() as int),
    ensures
        merge_prefix(r, m) == r,
    decreases m,
{
    if m > 0 {
        lemma_merge_prefix_settled(r, m - 1);
        let x = account_of(r.candidates[m - 1]);
        assert(r.collators.contains(x) || r.collators.len() >= r.max_collators);
        assert(with_collator(r, x) is Err);
    }
}

/// Reconciling twice in a row changes nothing the second time: the collator
/// registry, the notifications and everything else come out as after the first.
pub proof fn lemma_merge_idempotent(v: StakingView)
    ensures
        merged(merged(v)) == merged(v),
{
    let n = v.candidates.len() as int;
    let r = merged(v);
    lemma_merge_prefix_offers(v, n);
    lemma_merge_prefix_frame(v, n);
    assert(offered(r, r, n));
    lemma_merge_prefix_settled(r, n);
}

/// Once the first hook has scheduled reconciliation `k` blocks after `b0`,
/// the hooks of the blocks in between change nothing, and the hook at the
/// scheduled block moves the schedule on by another `k` blocks.
pub proof fn lemma_scheduler_progression(v: StakingView, b0: u32)
    requires
        v.next_block_number is None,
        b0 + 2 * v.block_interval <= u32::MAX,
    ensures
        hook(v, b0).next_block_number == Some((b0 + v.block_interval) as u32),
        forall|b: u32| b0 < b < b0 + v.block_interval ==> #[trigger] hook(hook(v, b0), b) == hook(v, b0),
        hook(hook(v, b0), (b0 + v.block_interval) as u32).next_block_number == Some(
            (b0 + 2 * v.block_interval) as u32,
        ),
{
    let s = hook(v, b0);
    lemma_bootstrap_prefix_frame(v, v.seeds.len() as int);
    assert(s.block_interval == v.block_interval);
    lemma_merge_prefix_frame(s, s.candidates.len() as int);
}

/// The seeds are taken up only by the first hook: once a reconciliation is
/// scheduled, no later hook changes the candidate registry, and the schedule
/// stays in place.
pub proof fn lemma_bootstrap_once(v: StakingView, b: u32)
    ensures
        hook(v, b).next_block_number is Some,
        v.next_block_number is Some ==> hook(v, b).candidates == v.candidates,
{
    lemma_merge_prefix_frame(v, v.candidates.len() as int);
}

/// The account derived from an authority key depends on the key's bytes alone.
pub proof fn lemma_to_account_deterministic(a: Seq<u8>, b: Seq<u8>)
    requires
        a == b,
    ensures
        account_of(a) == account_of(b),
{
}

proof fn lemma_inserted_keeps_bounded_unique(s: Seq<Seq<u8>>, x: Seq<u8>, max: u32)
    requires
        bounded_unique(s, max),
        inserted(s, x, max) is Ok,
    ensures
        bounded_unique(inserted(s, x, max)->Ok_0, max),
{
    let t = s.push(x);
    assert forall|i: int, j: int| 0 <= i < t.len() && 0 <= j < t.len() && i != j implies t[i] != t[j] by {
        if i == s.len() {
            assert(s[j] == t[j]);
        } else if j == s.len() {
            assert(s[i] == t[i]);
        }
    }
}

proof fn lemma_merge_prefix_valid(v: StakingView, n: int)
    requires
        valid(v),
        n <= v.candidates.len(),
    ensures
        valid(merge_prefix(v, n)),
    decreases n,
{
    if n > 0 {
        lemma_merge_prefix_valid(v, n - 1);
        lemma_merge_prefix_frame(v, n - 1);
        let p = merge_prefix(v, n - 1);
        let x = account_of(v.candidates[n - 1]);
        if with_collator(p, x) is Ok {
            lemma_inserted_keeps_bounded_unique(p.collators, x, p.max_collators);
        }
    }
}

proof fn lemma_bootstrap_prefix_valid(v: StakingView, n: int)
    requires
        valid(v),
        n <= v.seeds.len(),
    ensures
        valid(bootstrap_prefix(v, n)),
    decreases n,
{
    if n > 0 {
        lemma_bootstrap_prefix_valid(v, n - 1);
        lemma_bootstrap_prefix_frame(v, n - 1);
        let p = bootstrap_prefix(v, n - 1);
        if let Some(a) = seed_authority(v.seeds[n - 1]) {
            if with_candidate(p, a) is Ok {
                lemma_inserted_keeps_bounded_unique(p.candidates, a, p.max_candidates);
            }
        }
    }
}

/// The per-block hook keeps every registry duplicate-free and within its
/// capacity, whichever block it runs at.
pub proof fn lemma_hook_keeps_valid(v: StakingView, b: u32)
    requires
        valid(v),
    ensures
        valid(hook(v, b)),
{
    lemma_merge_prefix_valid(v, v.candidates.len() as int);
    lemma_bootstrap_prefix_valid(v, v.seeds.len() as int);
}

} // verus!
