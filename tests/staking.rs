use xode_staking::{
    AccountData, AccountId, AuthorityId, CompositeStruct, Config, DispatchError, Error, Event, Origin, Pallet,
    decode_seed,
};

fn key(b: u8) -> AuthorityId {
    AuthorityId::decode(&vec![b; 32]).unwrap()
}

fn account(b: u8) -> AccountId {
    AccountId::decode(&vec![b; 32]).unwrap()
}

fn signed() -> Origin {
    Origin::Signed(account(200))
}

fn config(max_candidates: u32, max_collators: u32, interval: u32, seeds: &[&'static str]) -> Config {
    Config {
        block_interval: interval,
        invulnerables: seeds.to_vec(),
        max_candidates,
        max_authorities: 2,
        max_collators,
    }
}

fn candidate_bytes(p: &Pallet) -> Vec<Vec<u8>> {
    p.candidates().iter().map(|c| c.encode()).collect()
}

fn collator_bytes(p: &Pallet) -> Vec<Vec<u8>> {
    p.collators().iter().map(|c| c.encode()).collect()
}

const X_HEX: &str = "0x1111111111111111111111111111111111111111111111111111111111111111";
const Y_HEX: &str = "2222222222222222222222222222222222222222222222222222222222222222";

#[test]
fn capacity_rejects_fourth_candidate() {
    let mut p = Pallet::new(config(3, 5, 10, &[]));
    assert_eq!(p.stake(signed(), key(1)), Ok(()));
    assert_eq!(p.stake(signed(), key(2)), Ok(()));
    assert_eq!(p.stake(signed(), key(3)), Ok(()));
    assert_eq!(candidate_bytes(&p), vec![vec![1u8; 32], vec![2u8; 32], vec![3u8; 32]]);
    assert_eq!(p.stake(signed(), key(4)), Err(DispatchError::MaxCandidatesReached));
    assert_eq!(p.add_candidate(key(4)), Err(DispatchError::Module(Error::ExceedsMaxCandidates)));
    assert_eq!(candidate_bytes(&p), vec![vec![1u8; 32], vec![2u8; 32], vec![3u8; 32]]);
}

#[test]
fn duplicate_candidate_rejected() {
    let mut p = Pallet::new(config(3, 5, 10, &[]));
    assert_eq!(p.add_candidate(key(1)), Ok(()));
    assert_eq!(p.add_candidate(key(1)), Err(DispatchError::Module(Error::CandidateAlreadyExist)));
    assert_eq!(p.stake(signed(), key(1)), Err(DispatchError::CandidateExists));
    assert_eq!(candidate_bytes(&p), vec![vec![1u8; 32]]);
    assert_eq!(p.events().len(), 1);
    assert!(matches!(&p.events()[0], Event::CandidateAdded { candidate } if candidate.encode() == vec![1u8; 32]));
}

#[test]
fn unstake_keeps_order_of_the_rest() {
    let mut p = Pallet::new(config(3, 5, 10, &[]));
    for b in 1..=3u8 {
        assert_eq!(p.stake(signed(), key(b)), Ok(()));
    }
    assert_eq!(p.unstake(signed(), key(2)), Ok(()));
    assert_eq!(candidate_bytes(&p), vec![vec![1u8; 32], vec![3u8; 32]]);
    assert_eq!(p.unstake(signed(), key(2)), Err(DispatchError::CandidateMissing));
    assert_eq!(candidate_bytes(&p), vec![vec![1u8; 32], vec![3u8; 32]]);
}

#[test]
fn unsigned_origin_rejected() {
    let mut p = Pallet::new(config(3, 5, 10, &[]));
    assert_eq!(p.stake(Origin::Unsigned, key(1)), Err(DispatchError::BadOrigin));
    assert_eq!(p.unstake(Origin::Root, key(1)), Err(DispatchError::BadOrigin));
    assert_eq!(p.do_something(Origin::Unsigned, 4), Err(DispatchError::BadOrigin));
    assert_eq!(p.cause_error(Origin::Root), Err(DispatchError::BadOrigin));
    assert!(p.candidates().is_empty());
    assert!(p.events().is_empty());
}

#[test]
fn scheduler_bootstraps_then_reconciles_on_schedule() {
    let mut p = Pallet::new(config(3, 5, 10, &[X_HEX, Y_HEX]));
    assert_eq!(p.next_block_number(), None);
    assert_eq!(p.on_initialize(5), 1);
    assert_eq!(candidate_bytes(&p), vec![vec![0x11u8; 32], vec![0x22u8; 32]]);
    assert_eq!(p.next_block_number(), Some(15));
    assert!(p.collators().is_empty());
    let events_after_bootstrap = p.events().len();
    for b in 6..15u32 {
        p.on_initialize(b);
        assert_eq!(p.next_block_number(), Some(15));
        assert!(p.collators().is_empty());
        assert_eq!(p.events().len(), events_after_bootstrap);
    }
    p.on_initialize(15);
    assert_eq!(collator_bytes(&p), vec![vec![0x11u8; 32], vec![0x22u8; 32]]);
    assert_eq!(p.next_block_number(), Some(25));
}

#[test]
fn seeds_are_taken_up_once() {
    let mut p = Pallet::new(config(3, 5, 10, &[X_HEX, Y_HEX]));
    p.on_initialize(1);
    assert_eq!(p.unstake(signed(), key(0x11)), Ok(()));
    for b in 2..=30u32 {
        p.on_initialize(b);
    }
    assert_eq!(candidate_bytes(&p), vec![vec![0x22u8; 32]]);
    assert_eq!(p.next_block_number(), Some(31));
}

#[test]
fn malformed_seeds_are_passed_over() {
    let mut p = Pallet::new(config(3, 5, 10, &["0xzz", "123", "abcd", X_HEX, X_HEX]));
    p.on_initialize(0);
    assert_eq!(candidate_bytes(&p), vec![vec![0x11u8; 32]]);
    assert_eq!(p.next_block_number(), Some(10));
}

#[test]
fn new_session_fills_collators_up_to_capacity() {
    let mut p = Pallet::new(config(3, 1, 10, &[]));
    assert_eq!(p.stake(signed(), key(0x11)), Ok(()));
    assert_eq!(p.stake(signed(), key(0x22)), Ok(()));
    let set = p.new_session(7).unwrap();
    let set: Vec<Vec<u8>> = set.iter().map(|a| a.encode()).collect();
    assert_eq!(set, vec![vec![0x11u8; 32]]);
    assert_eq!(collator_bytes(&p), vec![vec![0x11u8; 32]]);
    p.start_session(7);
    p.end_session(7);
    assert_eq!(collator_bytes(&p), vec![vec![0x11u8; 32]]);
}

#[test]
fn merge_twice_changes_nothing_more() {
    let mut p = Pallet::new(config(3, 2, 10, &[]));
    for b in 1..=3u8 {
        assert_eq!(p.stake(signed(), key(b)), Ok(()));
    }
    p.merge_candidates();
    let first = collator_bytes(&p);
    let events = p.events().len();
    p.merge_candidates();
    assert_eq!(collator_bytes(&p), first);
    assert_eq!(first, vec![vec![1u8; 32], vec![2u8; 32]]);
    assert_eq!(p.events().len(), events);
}

#[test]
fn merge_keeps_collators_whose_candidate_left() {
    let mut p = Pallet::new(config(3, 5, 10, &[]));
    assert_eq!(p.stake(signed(), key(1)), Ok(()));
    p.merge_candidates();
    assert_eq!(p.unstake(signed(), key(1)), Ok(()));
    p.merge_candidates();
    assert_eq!(collator_bytes(&p), vec![vec![1u8; 32]]);
}

#[test]
fn to_account_is_deterministic() {
    let a = Pallet::convert_to_account(key(7));
    let b = Pallet::convert_to_account(key(7));
    assert_eq!(a.encode(), b.encode());
    assert_eq!(a.encode(), vec![7u8; 32]);
}

#[test]
fn seed_decoding() {
    let k = decode_seed(X_HEX).unwrap();
    assert_eq!(k.encode(), vec![0x11u8; 32]);
    let upper = format!("{}FF", "Ab".repeat(32));
    let k = decode_seed(&upper).unwrap();
    assert_eq!(k.encode(), vec![0xabu8; 32]);
    assert!(decode_seed("0x1").is_none());
    assert!(decode_seed(&"g".repeat(64)).is_none());
    assert!(decode_seed(&"11".repeat(31)).is_none());
}

#[test]
fn authority_registry_errors() {
    let mut p = Pallet::new(config(3, 5, 10, &[]));
    assert_eq!(p.add_authority(key(1)), Ok(()));
    assert_eq!(p.add_authority(key(1)), Err(DispatchError::Module(Error::AuthorityAlreadyExist)));
    assert_eq!(p.add_authority(key(2)), Ok(()));
    assert_eq!(p.add_authority(key(3)), Err(DispatchError::Module(Error::ExceedsMaxAuthorities)));
    assert_eq!(p.delete_authority(key(1)), Ok(()));
    assert_eq!(p.delete_authority(key(1)), Err(DispatchError::Module(Error::AuthorityDoesNotExist)));
    let rest: Vec<Vec<u8>> = p.authorities().iter().map(|a| a.encode()).collect();
    assert_eq!(rest, vec![vec![2u8; 32]]);
}

#[test]
fn collator_registry_errors() {
    let mut p = Pallet::new(config(3, 1, 10, &[]));
    assert_eq!(p.add_collator(account(1)), Ok(()));
    assert_eq!(p.add_collator(account(1)), Err(DispatchError::Module(Error::CollatorAlreadyExist)));
    assert_eq!(p.add_collator(account(2)), Err(DispatchError::Module(Error::ExceedsMaxCollators)));
}

#[test]
fn stored_value_and_increment() {
    let mut p = Pallet::new(config(3, 1, 10, &[]));
    assert_eq!(p.cause_error(signed()), Err(DispatchError::Module(Error::NoneValue)));
    assert_eq!(p.do_something(signed(), 41), Ok(()));
    assert_eq!(p.cause_error(signed()), Ok(()));
    assert!(p.something() == Some(CompositeStruct { block_number: 42 }));
    assert_eq!(p.do_something(signed(), u32::MAX), Ok(()));
    assert_eq!(p.cause_error(signed()), Err(DispatchError::Module(Error::StorageOverflow)));
}

#[test]
fn retrievals_report_in_events() {
    let mut p = Pallet::new(config(3, 1, 10, &[]));
    assert_eq!(p.add_authority(key(9)), Ok(()));
    assert_eq!(p.retrieve_authorities(Origin::Unsigned), Ok(()));
    assert_eq!(p.retrieve_max_authorities(Origin::Unsigned), Ok(()));
    assert_eq!(p.retrieve_validators(Origin::Unsigned), Ok(()));
    let data = AccountData { free: 5, reserved: 1, frozen: 0, flags: 0 };
    assert_eq!(p.retrieve_treasury_account(Origin::Unsigned, data), Ok(()));
    let ev = p.events();
    assert_eq!(ev.len(), 5);
    assert!(matches!(&ev[1], Event::AuthoritiesRetrieved { authorities } if authorities.len() == 1 && authorities[0].encode() == vec![9u8; 32]));
    assert!(matches!(&ev[2], Event::MaxAuthoritiesRetrieved { max_authorities: 1 }));
    assert!(matches!(&ev[3], Event::ValidatorsRetrieved { validators } if validators.len() == 1 && validators[0].encode() == vec![9u8; 32]));
    let mut treasury = b"modlpy/trsry".to_vec();
    treasury.resize(32, 0);
    assert!(matches!(&ev[4], Event::TreasuryAccountRetrieved { treasury: t, data: d } if t.encode() == treasury && *d == data));
}
