use clearnet::program::{challenge, deposit, initialize, request, set_node_status, withdraw};
use clearnet::quorum::verify_quorum;
use clearnet::types::{
    Challenge, Challenged, ClearnetError, Deposit, Deposited, Initialize, Pubkey, Rejected,
    Request, Requested, SetNodeStatus, State, Withdraw, Withdrawn, DEFAULT_CHALLENGE_PERIOD,
};
use clearnet::vault::Vault;

const NOW: i64 = 1_700_000_000;

fn key(n: u128) -> Pubkey {
    Pubkey { hi: 0, lo: n }
}

fn admin() -> Pubkey {
    key(1)
}

fn node_a() -> Pubkey {
    key(10)
}

fn node_b() -> Pubkey {
    key(11)
}

fn user() -> Pubkey {
    key(100)
}

fn asset() -> Pubkey {
    key(500)
}

/// A configured vault with two active nodes and 1000 of `asset()` deposited by `user()`.
fn setup() -> Vault {
    let mut v = Vault::new();
    assert_eq!(initialize(&mut v, &Initialize { admin: admin() }), Ok(()));
    for n in [node_a(), node_b()] {
        let ctx = SetNodeStatus { admin: admin(), node_authority: n };
        assert_eq!(set_node_status(&mut v, &ctx, true), Ok(()));
    }
    let d = deposit(&mut v, &Deposit { user: user(), mint: asset() }, 1000);
    assert_eq!(d, Ok(Deposited { wallet: user(), token: asset(), amount: 1000 }));
    v
}

fn attestation(height: u64, balance: u64) -> State {
    State {
        wallet: user(),
        token: asset(),
        height,
        balance,
        participants: vec![node_a(), node_b()],
        sigs: vec![vec![1u8; 64], vec![2u8; 64]],
    }
}

fn all_valid() -> Vec<bool> {
    vec![true, true]
}

fn open(v: &mut Vault, height: u64, balance: u64, amount: u64, now: i64)
    -> Result<(Requested, Challenged), ClearnetError> {
    let ctx = Request { user: user(), now };
    request(v, &ctx, &attestation(height, balance), amount, &all_valid())
}

#[test]
fn initialize_sets_admin_and_default_period() {
    let mut v = Vault::new();
    assert_eq!(initialize(&mut v, &Initialize { admin: admin() }), Ok(()));
    let c = v.config.unwrap();
    assert_eq!(c.admin, admin());
    assert_eq!(c.challenge_period, DEFAULT_CHALLENGE_PERIOD);
    assert_eq!(c.challenge_period, 600);
}

#[test]
fn initialize_twice_fails() {
    let mut v = Vault::new();
    assert_eq!(initialize(&mut v, &Initialize { admin: admin() }), Ok(()));
    assert_eq!(
        initialize(&mut v, &Initialize { admin: user() }),
        Err(ClearnetError::AlreadyInitialized)
    );
    assert_eq!(v.config.unwrap().admin, admin());
}

#[test]
fn set_node_status_requires_config_and_admin() {
    let mut v = Vault::new();
    let ctx = SetNodeStatus { admin: admin(), node_authority: node_a() };
    assert_eq!(set_node_status(&mut v, &ctx, true), Err(ClearnetError::NotInitialized));
    assert_eq!(initialize(&mut v, &Initialize { admin: admin() }), Ok(()));
    let bad = SetNodeStatus { admin: user(), node_authority: node_a() };
    assert_eq!(set_node_status(&mut v, &bad, true), Err(ClearnetError::NotAdmin));
    assert!(!v.is_active(node_a()));
    assert_eq!(set_node_status(&mut v, &ctx, true), Ok(()));
    assert!(v.is_active(node_a()));
}

#[test]
fn set_node_status_updates_existing_entry() {
    let mut v = setup();
    let ctx = SetNodeStatus { admin: admin(), node_authority: node_a() };
    assert_eq!(set_node_status(&mut v, &ctx, false), Ok(()));
    assert!(!v.is_active(node_a()));
    assert!(v.is_active(node_b()));
    assert_eq!(v.nodes.len(), 2);
    assert_eq!(set_node_status(&mut v, &ctx, true), Ok(()));
    assert!(v.is_active(node_a()));
    assert_eq!(v.nodes.len(), 2);
}

#[test]
fn deposit_accumulates_and_overflow_fails() {
    let mut v = setup();
    let ctx = Deposit { user: user(), mint: asset() };
    assert_eq!(
        deposit(&mut v, &ctx, 234),
        Ok(Deposited { wallet: user(), token: asset(), amount: 234 })
    );
    assert_eq!(v.vault_balance(asset()), 1234);
    assert_eq!(deposit(&mut v, &ctx, u64::MAX), Err(ClearnetError::BalanceOverflow));
    assert_eq!(v.vault_balance(asset()), 1234);
    assert_eq!(v.vault_balance(key(501)), 0);
}

#[test]
fn request_opens_pending_claim() {
    let mut v = setup();
    let r = open(&mut v, 1, 1000, 400, NOW);
    assert_eq!(
        r,
        Ok((
            Requested { wallet: user(), token: asset(), amount: 400 },
            Challenged { wallet: user(), height: 1, expiration: NOW + 600 },
        ))
    );
    let p = v.pending(user()).unwrap();
    assert_eq!(p.amount, 400);
    assert_eq!(p.height, 1);
    assert_eq!(p.expiration, NOW + 600);
    assert_eq!(p.token, asset());
}

#[test]
fn request_over_balance_fails() {
    let mut v = setup();
    assert_eq!(open(&mut v, 1, 100, 150, NOW), Err(ClearnetError::InsufficientAttestedBalance));
    assert!(v.pending(user()).is_none());
}

#[test]
fn second_request_before_resolution_fails() {
    let mut v = setup();
    assert!(open(&mut v, 1, 1000, 400, NOW).is_ok());
    assert_eq!(open(&mut v, 2, 1000, 100, NOW + 1), Err(ClearnetError::RequestAlreadyPending));
    assert_eq!(v.pending(user()).unwrap().height, 1);
    assert_eq!(v.requests.len(), 1);
}

#[test]
fn request_before_initialize_fails() {
    let mut v = Vault::new();
    assert_eq!(open(&mut v, 1, 1000, 400, NOW), Err(ClearnetError::NotInitialized));
}

#[test]
fn request_with_bad_quorum_fails() {
    let mut v = setup();
    let ctx = Request { user: user(), now: NOW };
    let s = attestation(1, 1000);
    assert_eq!(
        request(&mut v, &ctx, &s, 400, &vec![true, false]),
        Err(ClearnetError::QuorumVerificationFailed)
    );
    let mut missing_sig = attestation(1, 1000);
    missing_sig.sigs.pop();
    assert_eq!(
        request(&mut v, &ctx, &missing_sig, 400, &all_valid()),
        Err(ClearnetError::QuorumVerificationFailed)
    );
    let mut stranger = attestation(1, 1000);
    stranger.participants[1] = key(77);
    assert_eq!(
        request(&mut v, &ctx, &stranger, 400, &all_valid()),
        Err(ClearnetError::QuorumVerificationFailed)
    );
    assert!(v.pending(user()).is_none());
}

#[test]
fn quorum_rules() {
    let v = setup();
    assert!(verify_quorum(&v, &attestation(1, 1), &all_valid()));
    let mut empty = attestation(1, 1);
    empty.participants.clear();
    empty.sigs.clear();
    assert!(!verify_quorum(&v, &empty, &vec![]));
    let mut twice = attestation(1, 1);
    twice.participants[1] = node_a();
    assert!(!verify_quorum(&v, &twice, &all_valid()));
    assert!(!verify_quorum(&v, &attestation(1, 1), &vec![true]));
}

#[test]
fn request_with_clock_overflow_fails() {
    let mut v = setup();
    assert_eq!(open(&mut v, 1, 1000, 400, i64::MAX - 10), Err(ClearnetError::InvalidClock));
    assert_eq!(open(&mut v, 1, 1000, 400, -600), Err(ClearnetError::InvalidClock));
    assert!(v.pending(user()).is_none());
}

#[test]
fn challenge_same_height_is_not_newer() {
    let mut v = setup();
    assert!(open(&mut v, 5, 1000, 400, NOW).is_ok());
    let ctx = Challenge { challenger: node_a() };
    assert_eq!(
        challenge(&mut v, &ctx, &attestation(5, 900), &all_valid()),
        Err(ClearnetError::CandidateNotNewer)
    );
    assert_eq!(
        challenge(&mut v, &ctx, &attestation(4, 900), &all_valid()),
        Err(ClearnetError::CandidateNotNewer)
    );
    assert!(v.pending(user()).is_some());
}

#[test]
fn challenge_next_height_clears_slot() {
    let mut v = setup();
    assert!(open(&mut v, 5, 1000, 400, NOW).is_ok());
    let ctx = Challenge { challenger: node_a() };
    assert_eq!(
        challenge(&mut v, &ctx, &attestation(6, 900), &all_valid()),
        Ok(Rejected { wallet: user(), token: asset(), amount: 400 })
    );
    assert!(v.pending(user()).is_none());
    assert_eq!(v.vault_balance(asset()), 1000);
}

#[test]
fn challenge_errors() {
    let mut v = setup();
    let ctx = Challenge { challenger: node_a() };
    assert_eq!(
        challenge(&mut v, &ctx, &attestation(2, 900), &all_valid()),
        Err(ClearnetError::NoPendingRequest)
    );
    assert!(open(&mut v, 1, 1000, 400, NOW).is_ok());
    assert_eq!(
        challenge(&mut v, &ctx, &attestation(2, 900), &vec![false, true]),
        Err(ClearnetError::QuorumVerificationFailed)
    );
    let outsider = Challenge { challenger: key(999) };
    assert_eq!(
        challenge(&mut v, &outsider, &attestation(2, 900), &all_valid()),
        Err(ClearnetError::UnauthorizedChallenger)
    );
    assert!(v.pending(user()).is_some());
    let owner = Challenge { challenger: user() };
    assert!(challenge(&mut v, &owner, &attestation(2, 900), &all_valid()).is_ok());
}

#[test]
fn withdraw_before_expiration_fails() {
    let mut v = setup();
    assert!(open(&mut v, 1, 1000, 400, NOW).is_ok());
    let ctx = Withdraw { user: user(), now: NOW + 599 };
    assert_eq!(
        withdraw(&mut v, &ctx, &attestation(1, 1000)),
        Err(ClearnetError::ChallengePeriodNotExpired)
    );
    assert_eq!(v.vault_balance(asset()), 1000);
}

#[test]
fn withdraw_at_expiration_pays_amount() {
    let mut v = setup();
    assert!(open(&mut v, 1, 1000, 400, NOW).is_ok());
    let ctx = Withdraw { user: user(), now: NOW + 600 };
    assert_eq!(
        withdraw(&mut v, &ctx, &attestation(1, 1000)),
        Ok(Withdrawn { wallet: user(), token: asset(), amount: 400 })
    );
    assert_eq!(v.vault_balance(asset()), 600);
    assert!(v.pending(user()).is_none());
}

#[test]
fn withdraw_height_mismatch_fails_at_any_time() {
    let mut v = setup();
    assert!(open(&mut v, 3, 1000, 400, NOW).is_ok());
    for now in [NOW, NOW + 599, NOW + 600, NOW + 100_000] {
        let ctx = Withdraw { user: user(), now };
        assert_eq!(withdraw(&mut v, &ctx, &attestation(2, 1000)), Err(ClearnetError::StateMismatch));
        assert_eq!(withdraw(&mut v, &ctx, &attestation(4, 1000)), Err(ClearnetError::StateMismatch));
    }
    assert!(v.pending(user()).is_some());
}

#[test]
fn withdraw_errors() {
    let mut v = setup();
    let ctx = Withdraw { user: user(), now: NOW + 1000 };
    assert_eq!(withdraw(&mut v, &ctx, &attestation(1, 1000)), Err(ClearnetError::NoPendingRequest));
    assert!(open(&mut v, 1, 5000, 4000, NOW).is_ok());
    assert_eq!(
        withdraw(&mut v, &ctx, &attestation(1, 5000)),
        Err(ClearnetError::InsufficientVaultBalance)
    );
    assert_eq!(v.vault_balance(asset()), 1000);
    assert!(v.pending(user()).is_some());
}

#[test]
fn request_succeeds_again_after_challenge_or_withdraw() {
    let mut v = setup();
    assert!(open(&mut v, 1, 1000, 400, NOW).is_ok());
    let ctx = Challenge { challenger: node_b() };
    assert!(challenge(&mut v, &ctx, &attestation(2, 1000), &all_valid()).is_ok());
    assert!(open(&mut v, 2, 1000, 300, NOW + 10).is_ok());
    let w = Withdraw { user: user(), now: NOW + 610 };
    assert!(withdraw(&mut v, &w, &attestation(2, 1000)).is_ok());
    assert_eq!(v.vault_balance(asset()), 700);
    assert!(open(&mut v, 3, 700, 100, NOW + 700).is_ok());
}

#[test]
fn at_most_one_pending_per_wallet() {
    let mut v = setup();
    assert!(open(&mut v, 1, 1000, 400, NOW).is_ok());
    assert!(open(&mut v, 1, 1000, 400, NOW).is_err());
    let other = State { wallet: key(101), ..attestation(1, 50) };
    let ctx = Request { user: key(101), now: NOW };
    assert!(request(&mut v, &ctx, &other, 50, &all_valid()).is_ok());
    assert_eq!(v.requests.len(), 2);
    for w in [user(), key(101)] {
        let n = v.requests.iter().filter(|r| r.wallet == w && r.expiration > 0).count();
        assert_eq!(n, 1);
    }
}

#[test]
fn scenario_challenge_then_new_request() {
    let mut v = setup();
    let r = open(&mut v, 1, 1000, 400, NOW).unwrap();
    assert_eq!(r.1.expiration, NOW + 600);
    let ctx = Challenge { challenger: node_a() };
    let rej = challenge(&mut v, &ctx, &attestation(2, 1000), &all_valid());
    assert_eq!(rej, Ok(Rejected { wallet: user(), token: asset(), amount: 400 }));
    assert!(v.pending(user()).is_none());
    assert_eq!(v.vault_balance(asset()), 1000);
    assert!(open(&mut v, 3, 1000, 400, NOW + 300).is_ok());
    assert_eq!(v.pending(user()).unwrap().height, 3);
}

#[test]
fn scenario_withdraw_after_window() {
    let mut v = setup();
    assert!(open(&mut v, 1, 1000, 400, NOW).is_ok());
    let ctx = Withdraw { user: user(), now: NOW + 600 };
    let w = withdraw(&mut v, &ctx, &attestation(1, 1000));
    assert_eq!(w, Ok(Withdrawn { wallet: user(), token: asset(), amount: 400 }));
    assert_eq!(v.vault_balance(asset()), 600);
}
