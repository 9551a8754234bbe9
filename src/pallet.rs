use vstd::prelude::*;
use vstd::string::StringSliceAdditionalSpecFns;
use crate::ids::{AccountId, AuthorityId, Identifier, account_of, bytes_of};
use crate::model::{
    StakingView, bootstrap_prefix, bootstrapped, hook, lemma_bootstrap_prefix_frame,
    lemma_merge_prefix_frame, merge_prefix, merged, rescheduled, valid, with_authority,
    with_candidate, with_collator, without_authority, without_candidate,
};
use crate::registry::{InsertError, remove_entry, try_insert};
use crate::seeds::decode_seed;
use crate::types::{
    AccountData, CompositeStruct, Config, DispatchError, DispatchResult, Error, Event, EventView,
    Origin,
};

verus! {

/// Bytes of the treasury's module identifier.
pub open spec fn treasury_pallet_id() -> Seq<u8> {
    seq![112u8, 121, 47, 116, 114, 115, 114, 121]
}

/// The account that belongs to the treasury module: the prefix `modl`, the
/// module identifier, then zero bytes up to the length of an account.
pub open spec fn treasury_account_bytes() -> Seq<u8> {
    seq![109u8, 111, 100, 108] + treasury_pallet_id() + Seq::new(20, |i: int| 0u8)
}

/// The error a refused candidate addition reports.
pub open spec fn candidate_error(e: InsertError) -> DispatchError {
    match e {
        InsertError::Duplicate => DispatchError::Module(Error::CandidateAlreadyExist),
        InsertError::Full => DispatchError::Module(Error::ExceedsMaxCandidates),
    }
}

/// The error a refused stake reports.
pub open spec fn stake_error(e: InsertError) -> DispatchError {
    match e {
        InsertError::Duplicate => DispatchError::CandidateExists,
        InsertError::Full => DispatchError::MaxCandidatesReached,
    }
}

/// The error a refused authority addition reports.
pub open spec fn authority_error(e: InsertError) -> DispatchError {
    match e {
        InsertError::Duplicate => DispatchError::Module(Error::AuthorityAlreadyExist),
        InsertError::Full => DispatchError::Module(Error::ExceedsMaxAuthorities),
    }
}

/// The error a refused collator addition reports.
pub open spec fn collator_error(e: InsertError) -> DispatchError {
    match e {
        InsertError::Duplicate => DispatchError::Module(Error::CollatorAlreadyExist),
        InsertError::Full => DispatchError::Module(Error::ExceedsMaxCollators),
    }
}

/// The state store of the staking logic: the candidate registry, the
/// authority and collator registries it feeds, and the reconciliation timer.
pub struct Pallet {
    config: Config,
    candidates: Vec<AuthorityId>,
    authorities: Vec<AuthorityId>,
    collators: Vec<AccountId>,
    next_block_number: Option<u32>,
    something: Option<CompositeStruct>,
    events: Vec<Event>,
}

impl View for Pallet {
    type V = StakingView;

    closed spec fn view(&self) -> StakingView {
        StakingView {
            candidates: bytes_of(self.candidates@),
            authorities: bytes_of(self.authorities@),
            collators: bytes_of(self.collators@),
            next_block_number: self.next_block_number,
            something: self.something,
            events: self.events@.map_values(|e: Event| e@),
            block_interval: self.config.block_interval,
            seeds: self.config.invulnerables@.map_values(|s: &'static str| s.spec_bytes()),
            max_candidates: self.config.max_candidates,
            max_authorities: self.config.max_authorities,
            max_collators: self.config.max_collators,
        }
    }
}

fn signer(origin: &Origin) -> (r: Result<&AccountId, DispatchError>)
    ensures
        r is Ok <==> origin is Signed,
        r is Ok ==> r->Ok_0 == origin->Signed_0,
        r is Err ==> r->Err_0 == DispatchError::BadOrigin,
{
    match origin {
        Origin::Signed(who) => Ok(who),
        _ => Err(DispatchError::BadOrigin),
    }
}

fn copy_ids<T: Identifier>(v: &Vec<T>) -> (r: Vec<T>)
    ensures
        bytes_of(r@) == bytes_of(v@),
{
    let mut out: Vec<T> = Vec::new();
    let mut i: usize = 0;
    while i < v.len()
        invariant
            0 <= i <= v@.len(),
            bytes_of(out@) == bytes_of(v@).take(i as int),
        decreases v@.len() - i,
    {
        let d = v[i].duplicate();
        let ghost prev = out@;
        out.push(d);
        assert(bytes_of(out@) =~= bytes_of(prev).push(d.bytes()));
        i = i + 1;
        assert(bytes_of(out@) =~= bytes_of(v@).take(i as int));
    }
    assert(bytes_of(v@).take(v@.len() as int) =~= bytes_of(v@));
    out
}

impl Pallet {
    /// The state is valid: every registry is duplicate-free and within capacity.
    pub open spec fn wf(&self) -> bool {
        valid(self@)
    }

    /// A fresh state at genesis: empty registries and no reconciliation scheduled.
    pub fn new(config: Config) -> (r: Pallet)
        ensures
            r.wf(),
            r@.candidates.len() == 0,
            r@.authorities.len() == 0,
            r@.collators.len() == 0,
            r@.next_block_number is None,
            r@.something is None,
            r@.events.len() == 0,
            r@.block_interval == config.block_interval,
            r@.seeds == config.invulnerables@.map_values(|s: &'static str| s.spec_bytes()),
            r@.max_candidates == config.max_candidates,
            r@.max_authorities == config.max_authorities,
            r@.max_collators == config.max_collators,
    {
        let r = Pallet {
            config,
            candidates: Vec::new(),
            authorities: Vec::new(),
            collators: Vec::new(),
            next_block_number: None,
            something: None,
            events: Vec::new(),
        };
        assert(r@.candidates =~= Seq::<Seq<u8>>::empty());
        assert(r@.authorities =~= Seq::<Seq<u8>>::empty());
        assert(r@.collators =~= Seq::<Seq<u8>>::empty());
        r
    }

    fn deposit_event(&mut self, e: Event)
        ensures
            final(self)@ == (StakingView { events: old(self)@.events.push(e@), ..old(self)@ }),
    {
        self.events.push(e);
        assert(self@.events =~= old(self)@.events.push(e@));
    }

    /// Converts an authority key to the account it stands for.
    pub fn convert_to_account(authority: AuthorityId) -> (r: AccountId)
        ensures
            r@ == account_of(authority@),
    {
        authority.to_account()
    }

    /// Adds a candidate to the candidate registry.
    pub fn add_candidate(&mut self, candidate: AuthorityId) -> (r: DispatchResult)
        requires
            old(self).wf(),
        ensures
            final(self).wf(),
            match with_candidate(old(self)@, candidate@) {
                Ok(w) => r is Ok && final(self)@ == w,
                Err(e) => r == Err::<(), DispatchError>(candidate_error(e)) && final(self)@ == old(self)@,
            },
    {
        let e = candidate.duplicate();
        match try_insert(&mut self.candidates, candidate, self.config.max_candidates) {
            Ok(()) => {
                self.deposit_event(Event::CandidateAdded { candidate: e });
                Ok(())
            },
            Err(InsertError::Duplicate) => Err(DispatchError::Module(Error::CandidateAlreadyExist)),
            Err(InsertError::Full) => Err(DispatchError::Module(Error::ExceedsMaxCandidates)),
        }
    }
    /// Adds an authority to the authority registry.
    pub fn add_authority(&mut self, authority: AuthorityId) -> (r: DispatchResult)
        requires
            old(self).wf(),
        ensures
            final(self).wf(),
            match with_authority(old(self)@, authority@) {
                Ok(w) => r is Ok && final(self)@ == w,
                Err(e) => r == Err::<(), DispatchError>(authority_error(e)) && final(self)@ == old(self)@,
            },
    {
        let e = authority.duplicate();
        match try_insert(&mut self.authorities, authority, self.config.max_authorities) {
            Ok(()) => {
                self.deposit_event(Event::AuthorityAdded { authority: e });
                Ok(())
            },
            Err(InsertError::Duplicate) => Err(DispatchError::Module(Error::AuthorityAlreadyExist)),
            Err(InsertError::Full) => Err(DispatchError::Module(Error::ExceedsMaxAuthorities)),
        }
    }

    /// Removes an authority from the authority registry; the others keep their order.
    pub fn delete_authority(&mut self, authority: AuthorityId) -> (r: DispatchResult)
        requires
            old(self).wf(),
        ensures
            final(self).wf(),
            match without_authority(old(self)@, authority@) {
                Some(w) => r is Ok && final(self)@ == w,
                None => r == Err::<(), DispatchError>(DispatchError::Module(Error::AuthorityDoesNotExist))
                    && final(self)@ == old(self)@,
            },
    {
        proof {
            bytes_of(self.authorities@).index_of_first_ensures(authority@);
        }
        if remove_entry(&mut self.authorities, &authority) {
            self.deposit_event(Event::AuthorityRemoved { authority });
            Ok(())
        } else {
            Err(DispatchError::Module(Error::AuthorityDoesNotExist))
        }
    }

    /// Adds a collator to the collator registry.
    pub fn add_collator(&mut self, collator: AccountId) -> (r: DispatchResult)
        requires
            old(self).wf(),
        ensures
            final(self).wf(),
            match with_collator(old(self)@, collator@) {
                Ok(w) => r is Ok && final(self)@ == w,
                Err(e) => r == Err::<(), DispatchError>(collator_error(e)) && final(self)@ == old(self)@,
            },
    {
        let e = collator.duplicate();
        match try_insert(&mut self.collators, collator, self.config.max_collators) {
            Ok(()) => {
                self.deposit_event(Event::CollatorAdded { collator: e });
                Ok(())
            },
            Err(InsertError::Duplicate) => Err(DispatchError::Module(Error::CollatorAlreadyExist)),
            Err(InsertError::Full) => Err(DispatchError::Module(Error::ExceedsMaxCollators)),
        }
    }

    /// Stakes a candidate on behalf of a signed caller.
    pub fn stake(&mut self, origin: Origin, new_candidate: AuthorityId) -> (r: DispatchResult)
        requires
            old(self).wf(),
        ensures
            final(self).wf(),
            !(origin is Signed) ==> r == Err::<(), DispatchError>(DispatchError::BadOrigin)
                && final(self)@ == old(self)@,
            origin is Signed ==> match with_candidate(old(self)@, new_candidate@) {
                Ok(w) => r is Ok && final(self)@ == w,
                Err(e) => r == Err::<(), DispatchError>(stake_error(e)) && final(self)@ == old(self)@,
            },
    {
        if let Err(e) = signer(&origin) {
            return Err(e);
        }
        let e = new_candidate.duplicate();
        match try_insert(&mut self.candidates, new_candidate, self.config.max_candidates) {
            Ok(()) => {
                self.deposit_event(Event::CandidateAdded { candidate: e });
                Ok(())
            },
            Err(InsertError::Duplicate) => Err(DispatchError::CandidateExists),
            Err(InsertError::Full) => Err(DispatchError::MaxCandidatesReached),
        }
    }

    /// Unstakes a candidate on behalf of a signed caller; the other candidates
    /// keep their order.
    pub fn unstake(&mut self, origin: Origin, candidate_to_remove: AuthorityId) -> (r: DispatchResult)
        requires
            old(self).wf(),
        ensures
            final(self).wf(),
            !(origin is Signed) ==> r == Err::<(), DispatchError>(DispatchError::BadOrigin)
                && final(self)@ == old(self)@,
            origin is Signed ==> match without_candidate(old(self)@, candidate_to_remove@) {
                Some(w) => r is Ok && final(self)@ == w,
                None => r == Err::<(), DispatchError>(DispatchError::CandidateMissing)
                    && final(self)@ == old(self)@,
            },
    {
        if let Err(e) = signer(&origin) {
            return Err(e);
        }
        proof {
            bytes_of(self.candidates@).index_of_first_ensures(candidate_to_remove@);
        }
        if remove_entry(&mut self.candidates, &candidate_to_remove) {
            self.deposit_event(Event::CandidateRemoved { candidate: candidate_to_remove });
            Ok(())
        } else {
            Err(DispatchError::CandidateMissing)
        }
    }
    /// Schedules the next reconciliation `block_interval` blocks after `current_block`.
    pub fn update_next_block_number(&mut self, current_block: u32)
        requires
            current_block + old(self)@.block_interval <= u32::MAX,
        ensures
            final(self)@ == rescheduled(old(self)@, current_block),
    {
        self.next_block_number = Some(current_block + self.config.block_interval);
    }

    /// Offers every invulnerable seed to the candidate registry. A malformed
    /// seed, or one the registry refuses, is passed over and the rest go on.
    pub fn add_invulnerables(&mut self)
        requires
            old(self).wf(),
        ensures
            final(self).wf(),
            final(self)@ == bootstrapped(old(self)@),
    {
        let ghost v0 = self@;
        let n = self.config.invulnerables.len();
        let mut i: usize = 0;
        while i < n
            invariant
                0 <= i <= n,
                n == v0.seeds.len(),
                self.config.invulnerables@.map_values(|s: &'static str| s.spec_bytes()) == v0.seeds,
                self.wf(),
                self@ == bootstrap_prefix(v0, i as int),
            decreases n - i,
        {
            assert(self.config.invulnerables@[i as int].spec_bytes() == v0.seeds[i as int]);
            let seed = decode_seed(self.config.invulnerables[i]);
            match seed {
                Some(candidate) => {
                    let _ = self.add_candidate(candidate);
                },
                None => {},
            }
            i = i + 1;
        }
    }

    /// Offers the account of every candidate, in order, to the collator
    /// registry. Each offer stands on its own: a refused one is passed over.
    /// Nothing is ever taken out of the collator registry here.
    pub fn merge_candidates(&mut self)
        requires
            old(self).wf(),
        ensures
            final(self).wf(),
            final(self)@ == merged(old(self)@),
    {
        let ghost v0 = self@;
        let n = self.candidates.len();
        let mut i: usize = 0;
        while i < n
            invariant
                0 <= i <= n,
                n == v0.candidates.len(),
                self.wf(),
                self@ == merge_prefix(v0, i as int),
                self@.candidates == v0.candidates,
            decreases n - i,
        {
            assert(self@.candidates[i as int] == self.candidates@[i as int]@);
            let account = self.candidates[i].to_account();
            let _ = self.add_collator(account);
            i = i + 1;
        }
    }

    /// The per-block hook. On the first block it stakes the invulnerable seeds;
    /// at the scheduled block it reconciles; either way it then schedules the
    /// next reconciliation. On any other block it changes nothing. Gives back
    /// the number of storage reads it made.
    pub fn on_initialize(&mut self, current_block: u32) -> (r: u64)
        requires
            old(self).wf(),
            old(self)@.next_block_number is None || old(self)@.next_block_number == Some(current_block)
                ==> current_block + old(self)@.block_interval <= u32::MAX,
        ensures
            final(self).wf(),
            final(self)@ == hook(old(self)@, current_block),
            r == 1,
    {
        match self.next_block_number {
            Some(next_block) => {
                if current_block == next_block {
                    self.merge_candidates();
                    proof {
                        lemma_merge_prefix_frame(old(self)@, old(self)@.candidates.len() as int);
                    }
                    self.update_next_block_number(current_block);
                }
                1
            },
            None => {
                self.add_invulnerables();
                proof {
                    lemma_bootstrap_prefix_frame(old(self)@, old(self)@.seeds.len() as int);
                }
                self.update_next_block_number(current_block);
                1
            },
        }
    }

    /// Starts a new session: reconciles, then hands the collator registry to
    /// the consensus layer as the next validator set. Always gives a set.
    pub fn new_session(&mut self, index: u32) -> (r: Option<Vec<AccountId>>)
        requires
            old(self).wf(),
        ensures
            final(self).wf(),
            final(self)@ == merged(old(self)@),
            r is Some,
            bytes_of(r->Some_0@) == merged(old(self)@).collators,
    {
        self.merge_candidates();
        Some(copy_ids(&self.collators))
    }

    /// Marks the start of a session; changes nothing.
    pub fn start_session(&mut self, index: u32)
        ensures
            final(self)@ == old(self)@,
    {
    }

    /// Marks the end of a session; changes nothing.
    pub fn end_session(&mut self, index: u32)
        ensures
            final(self)@ == old(self)@,
    {
    }
    /// Stores a block number on behalf of a signed caller.
    pub fn do_something(&mut self, origin: Origin, bn: u32) -> (r: DispatchResult)
        ensures
            !(origin is Signed) ==> r == Err::<(), DispatchError>(DispatchError::BadOrigin)
                && final(self)@ == old(self)@,
            origin is Signed ==> r is Ok && final(self)@ == (StakingView {
                something: Some(CompositeStruct { block_number: bn }),
                events: old(self)@.events.push(
                    EventView::SomethingStored { block_number: bn, who: origin->Signed_0@ },
                ),
                ..old(self)@
            }),
    {
        let who = match signer(&origin) {
            Ok(who) => who.duplicate(),
            Err(e) => {
                return Err(e);
            },
        };
        self.something = Some(CompositeStruct { block_number: bn });
        self.deposit_event(Event::SomethingStored { block_number: bn, who });
        Ok(())
    }

    /// Increments the stored block number on behalf of a signed caller.
    pub fn cause_error(&mut self, origin: Origin) -> (r: DispatchResult)
        ensures
            !(origin is Signed) ==> r == Err::<(), DispatchError>(DispatchError::BadOrigin)
                && final(self)@ == old(self)@,
            origin is Signed && old(self)@.something is None ==> r == Err::<(), DispatchError>(
                DispatchError::Module(Error::NoneValue),
            ) && final(self)@ == old(self)@,
            origin is Signed && old(self)@.something is Some
                && old(self)@.something->Some_0.block_number == u32::MAX ==> r == Err::<
                (),
                DispatchError,
            >(DispatchError::Module(Error::StorageOverflow)) && final(self)@ == old(self)@,
            origin is Signed && old(self)@.something is Some
                && old(self)@.something->Some_0.block_number < u32::MAX ==> r is Ok
                && final(self)@ == (StakingView {
                something: Some(
                    CompositeStruct {
                        block_number: (old(self)@.something->Some_0.block_number + 1) as u32,
                    },
                ),
                ..old(self)@
            }),
    {
        if let Err(e) = signer(&origin) {
            return Err(e);
        }
        match self.something {
            None => Err(DispatchError::Module(Error::NoneValue)),
            Some(old_value) => match old_value.block_number.checked_add(1) {
                None => Err(DispatchError::Module(Error::StorageOverflow)),
                Some(block_number) => {
                    self.something = Some(CompositeStruct { block_number });
                    Ok(())
                },
            },
        }
    }

    /// Reports the authority registry in a notification.
    pub fn retrieve_authorities(&mut self, origin: Origin) -> (r: DispatchResult)
        ensures
            r is Ok,
            final(self)@ == (StakingView {
                events: old(self)@.events.push(
                    EventView::AuthoritiesRetrieved { authorities: old(self)@.authorities },
                ),
                ..old(self)@
            }),
    {
        let authorities = copy_ids(&self.authorities);
        proof {
            assert(authorities@.map_values(|a: AuthorityId| a@) =~= bytes_of(authorities@));
        }
        self.deposit_event(Event::AuthoritiesRetrieved { authorities });
        Ok(())
    }

    /// Reports the number of authorities in a notification.
    pub fn retrieve_max_authorities(&mut self, origin: Origin) -> (r: DispatchResult)
        requires
            old(self).wf(),
        ensures
            r is Ok,
            final(self)@ == (StakingView {
                events: old(self)@.events.push(
                    EventView::MaxAuthoritiesRetrieved {
                        max_authorities: old(self)@.authorities.len() as u32,
                    },
                ),
                ..old(self)@
            }),
    {
        let n = self.authorities.len() as u32;
        self.deposit_event(Event::MaxAuthoritiesRetrieved { max_authorities: n });
        Ok(())
    }

    /// Reports the accounts of the authorities, in order, in a notification.
    pub fn retrieve_validators(&mut self, origin: Origin) -> (r: DispatchResult)
        ensures
            r is Ok,
            final(self)@ == (StakingView {
                events: old(self)@.events.push(
                    EventView::ValidatorsRetrieved {
                        validators: old(self)@.authorities.map_values(|a: Seq<u8>| account_of(a)),
                    },
                ),
                ..old(self)@
            }),
    {
        let mut validators: Vec<AccountId> = Vec::new();
        let mut i: usize = 0;
        while i < self.authorities.len()
            invariant
                0 <= i <= self.authorities@.len(),
                validators@.map_values(|a: AccountId| a@) == bytes_of(self.authorities@).take(
                    i as int,
                ).map_values(|a: Seq<u8>| account_of(a)),
            decreases self.authorities@.len() - i,
        {
            let account = self.authorities[i].to_account();
            let ghost prev = validators@;
            validators.push(account);
            assert(validators@.map_values(|a: AccountId| a@) =~= prev.map_values(|a: AccountId| a@).push(account@));
            i = i + 1;
            assert(validators@.map_values(|a: AccountId| a@) =~= bytes_of(self.authorities@).take(
                i as int,
            ).map_values(|a: Seq<u8>| account_of(a)));
        }
        assert(bytes_of(self.authorities@).take(self.authorities@.len() as int) =~= bytes_of(self.authorities@));
        self.deposit_event(Event::ValidatorsRetrieved { validators });
        Ok(())
    }

    /// The treasury module's account.
    pub fn treasury_account() -> (r: AccountId)
        ensures
            r@ == treasury_account_bytes(),
    {
        let mut bytes: Vec<u8> = vec![109u8, 111, 100, 108, 112, 121, 47, 116, 114, 115, 114, 121];
        assert(bytes@ =~= seq![109u8, 111, 100, 108] + treasury_pallet_id());
        while bytes.len() < 32
            invariant
                12 <= bytes@.len() <= 32,
                bytes@ =~= seq![109u8, 111, 100, 108] + treasury_pallet_id() + Seq::new(
                    (bytes@.len() - 12) as nat,
                    |i: int| 0u8,
                ),
            decreases 32 - bytes@.len(),
        {
            bytes.push(0u8);
        }
        assert(bytes@ =~= treasury_account_bytes());
        assert(bytes@.subrange(0, 32) =~= bytes@);
        AccountId::decode(&bytes).unwrap()
    }

    /// Reports the treasury's account, with the balances the ledger holds for
    /// it, in a notification.
    pub fn retrieve_treasury_account(&mut self, origin: Origin, data: AccountData) -> (r: DispatchResult)
        ensures
            r is Ok,
            final(self)@ == (StakingView {
                events: old(self)@.events.push(
                    EventView::TreasuryAccountRetrieved { treasury: treasury_account_bytes(), data },
                ),
                ..old(self)@
            }),
    {
        let treasury = Self::treasury_account();
        self.deposit_event(Event::TreasuryAccountRetrieved { treasury, data });
        Ok(())
    }

    /// The staked candidates, in insertion order.
    pub fn candidates(&self) -> (r: Vec<AuthorityId>)
        ensures
            bytes_of(r@) == self@.candidates,
    {
        copy_ids(&self.candidates)
    }

    /// The active block-production authorities.
    pub fn authorities(&self) -> (r: Vec<AuthorityId>)
        ensures
            bytes_of(r@) == self@.authorities,
    {
        copy_ids(&self.authorities)
    }

    /// The collators marked invulnerable.
    pub fn collators(&self) -> (r: Vec<AccountId>)
        ensures
            bytes_of(r@) == self@.collators,
    {
        copy_ids(&self.collators)
    }

    /// The block at which the next reconciliation runs.
    pub fn next_block_number(&self) -> (r: Option<u32>)
        ensures
            r == self@.next_block_number,
    {
        self.next_block_number
    }

    /// The stored example value.
    pub fn something(&self) -> (r: Option<CompositeStruct>)
        ensures
            r == self@.something,
    {
        self.something
    }

    /// The notifications deposited so far, oldest first.
    pub fn events(&self) -> (r: &Vec<Event>)
        ensures
            r@.map_values(|e: Event| e@) == self@.events,
    {
        &self.events
    }
}

} // verus!
