use vstd::prelude::*;

use crate::quorum::{quorum_holds, verify_quorum};
use crate::types::{
    Challenge, Challenged, ClearnetError, Deposit, Deposited, Initialize, NodeEntry, Pubkey,
    Rejected, Request, Requested, SetNodeStatus, State, VaultConfig, Withdraw, WithdrawalRequest,
    Withdrawn, DEFAULT_CHALLENGE_PERIOD,
};
use crate::vault::{
    find_balance, find_node, find_request, lemma_balance, lemma_node_status, lemma_push_request,
    lemma_remove_request, lemma_slot, lemma_write_balance, Vault, VaultBalance,
};

verus! {

/// Creates the configuration with the caller as administrator.
pub fn initialize(vault: &mut Vault, ctx: &Initialize) -> (r: Result<(), ClearnetError>)
    requires
        old(vault).wf(),
    ensures
        final(vault).wf(),
        old(vault).config is Some ==> r == Err::<(), ClearnetError>(
            ClearnetError::AlreadyInitialized,
        ) && *final(vault) == *old(vault),
        old(vault).config is None ==> r is Ok && final(vault).config == Some(
            VaultConfig { admin: ctx.admin, challenge_period: DEFAULT_CHALLENGE_PERIOD },
        ) && final(vault).nodes@ == old(vault).nodes@ && final(vault).requests@ == old(
            vault,
        ).requests@ && final(vault).balances@ == old(vault).balances@,
{
    if vault.config.is_some() {
        return Err(ClearnetError::AlreadyInitialized);
    }
    vault.config = Some(
        VaultConfig { admin: ctx.admin, challenge_period: DEFAULT_CHALLENGE_PERIOD },
    );
    Ok(())
}

/// Which error `set_node_status` reports, if any.
pub open spec fn set_node_status_error(v: Vault, admin: Pubkey) -> Option<ClearnetError> {
    match v.config {
        None => Some(ClearnetError::NotInitialized),
        Some(c) => if c.admin != admin {
            Some(ClearnetError::NotAdmin)
        } else {
            None
        },
    }
}

/// Creates or updates the registry entry of `ctx.node_authority`; only the
/// administrator may do so.
pub fn set_node_status(vault: &mut Vault, ctx: &SetNodeStatus, status: bool) -> (r: Result<
    (),
    ClearnetError,
>)
    requires
        old(vault).wf(),
    ensures
        final(vault).wf(),
        match set_node_status_error(*old(vault), ctx.admin) {
            Some(e) => r == Err::<(), ClearnetError>(e) && *final(vault) == *old(vault),
            None => r is Ok,
        },
        r is Ok ==> {
            &&& final(vault).node_status(ctx.node_authority) == Some(status)
            &&& forall|w: Pubkey|
                w != ctx.node_authority ==> final(vault).node_status(w) == old(vault).node_status(
                    w,
                )
            &&& final(vault).config == old(vault).config
            &&& final(vault).requests@ == old(vault).requests@
            &&& final(vault).balances@ == old(vault).balances@
        },
{
    match vault.config {
        None => {
            return Err(ClearnetError::NotInitialized);
        },
        Some(c) => {
            if c.admin != ctx.admin {
                return Err(ClearnetError::NotAdmin);
            }
        },
    }
    let target = ctx.node_authority;
    let entry = NodeEntry { authority: target, is_active: status };
    let ghost v0 = *vault;
    let ghost at: int;
    match find_node(&vault.nodes, target) {
        Some(i) => {
            vault.nodes.set(i, entry);
            proof {
                at = i as int;
            }
        },
        None => {
            vault.nodes.push(entry);
            proof {
                at = v0.nodes@.len() as int;
            }
        },
    }
    proof {
        let v1 = *vault;
        assert(v1.nodes@[at] == entry);
        assert(v1.wf());
        lemma_node_status(v1, target);
        assert(v1.node_status(target) == Some(status));
        assert forall|w: Pubkey| w != target implies v1.node_status(w) == v0.node_status(w) by {
            lemma_node_status(v0, w);
            lemma_node_status(v1, w);
            if exists|k: int| 0 <= k < v0.nodes@.len() && v0.nodes@[k].authority == w {
                let k = choose|k: int| 0 <= k < v0.nodes@.len() && v0.nodes@[k].authority == w;
                assert(v1.nodes@[k] == v0.nodes@[k]);
            } else {
                assert forall|k: int| 0 <= k < v1.nodes@.len() implies v1.nodes@[k].authority
                    != w by {
                    if k < v0.nodes@.len() && v1.nodes@[k] != v0.nodes@[k] {
                        assert(v1.nodes@[k] == entry);
                    }
                }
            }
        }
    }
    Ok(())
}

/// Which error `deposit` reports, if any.
pub open spec fn deposit_error(v: Vault, mint: Pubkey, amount: u64) -> Option<ClearnetError> {
    if v.balance_of(mint) + amount > u64::MAX {
        Some(ClearnetError::BalanceOverflow)
    } else {
        None
    }
}

/// Credits `amount` of token `ctx.mint` to the vault. The token transfer from
/// the user's account is made by the caller.
pub fn deposit(vault: &mut Vault, ctx: &Deposit, amount: u64) -> (r: Result<
    Deposited,
    ClearnetError,
>)
    requires
        old(vault).wf(),
    ensures
        final(vault).wf(),
        match deposit_error(*old(vault), ctx.mint, amount) {
            Some(e) => r == Err::<Deposited, ClearnetError>(e) && *final(vault) == *old(vault),
            None => r == Ok::<Deposited, ClearnetError>(
                Deposited { wallet: ctx.user, token: ctx.mint, amount },
            ),
        },
        r is Ok ==> {
            &&& final(vault).balance_of(ctx.mint) == old(vault).balance_of(ctx.mint) + amount
            &&& forall|t: Pubkey|
                t != ctx.mint ==> final(vault).balance_of(t) == old(vault).balance_of(t)
            &&& final(vault).config == old(vault).config
            &&& final(vault).nodes@ == old(vault).nodes@
            &&& final(vault).requests@ == old(vault).requests@
        },
{
    let ghost v0 = *vault;
    let mint = ctx.mint;
    proof {
        lemma_balance(v0, mint);
    }
    let ghost at: int;
    let ghost total: u64;
    match find_balance(&vault.balances, mint) {
        Some(i) => {
            let cur = vault.balances[i].amount;
            if cur > u64::MAX - amount {
                return Err(ClearnetError::BalanceOverflow);
            }
            vault.balances.set(i, VaultBalance { token: mint, amount: cur + amount });
            proof {
                at = i as int;
                total = (cur + amount) as u64;
            }
        },
        None => {
            vault.balances.push(VaultBalance { token: mint, amount });
            proof {
                at = v0.balances@.len() as int;
                total = amount;
            }
        },
    }
    proof {
        lemma_write_balance(v0, *vault, mint, at, total);
    }
    Ok(Deposited { wallet: ctx.user, token: mint, amount })
}

/// Whether a claim opened at time `now` gets a positive deadline that fits the
/// clock's type.
pub open spec fn clock_ok(challenge_period: i64, now: i64) -> bool {
    0 < now + challenge_period <= i64::MAX
}

/// Which error `request` reports, if any.
pub open spec fn request_error(
    v: Vault,
    state: State,
    amount: u64,
    now: i64,
    sig_valid: Seq<bool>,
) -> Option<ClearnetError> {
    if amount > state.balance {
        Some(ClearnetError::InsufficientAttestedBalance)
    } else if v.slot(state.wallet) is Some {
        Some(ClearnetError::RequestAlreadyPending)
    } else {
        match v.config {
            None => Some(ClearnetError::NotInitialized),
            Some(c) => if !quorum_holds(v, state.participants@, state.sigs@.len(), sig_valid) {
                Some(ClearnetError::QuorumVerificationFailed)
            } else if !clock_ok(c.challenge_period, now) {
                Some(ClearnetError::InvalidClock)
            } else {
                None
            },
        }
    }
}

/// The claim that a successful `request` stores.
pub open spec fn opened(v: Vault, state: State, amount: u64, now: i64) -> WithdrawalRequest {
    WithdrawalRequest {
        wallet: state.wallet,
        token: state.token,
        amount,
        height: state.height,
        expiration: (now + v.config->0.challenge_period) as i64,
    }
}

/// Opens a withdrawal claim of `amount` backed by the attestation `state`,
/// payable once the challenge period has passed. `sig_valid[i]` tells whether
/// the `i`-th signature of `state` is valid for it.
pub fn request(
    vault: &mut Vault,
    ctx: &Request,
    state: &State,
    amount: u64,
    sig_valid: &Vec<bool>,
) -> (r: Result<(Requested, Challenged), ClearnetError>)
    requires
        old(vault).wf(),
    ensures
        final(vault).wf(),
        match request_error(*old(vault), *state, amount, ctx.now, sig_valid@) {
            Some(e) => r == Err::<(Requested, Challenged), ClearnetError>(e) && *final(vault)
                == *old(vault),
            None => r == Ok::<(Requested, Challenged), ClearnetError>(
                (
                    Requested { wallet: state.wallet, token: state.token, amount },
                    Challenged {
                        wallet: state.wallet,
                        height: state.height,
                        expiration: opened(*old(vault), *state, amount, ctx.now).expiration,
                    },
                ),
            ),
        },
        amount > state.balance ==> r == Err::<(Requested, Challenged), ClearnetError>(
            ClearnetError::InsufficientAttestedBalance,
        ),
        amount <= state.balance && old(vault).slot(state.wallet) is Some ==> r == Err::<
            (Requested, Challenged),
            ClearnetError,
        >(ClearnetError::RequestAlreadyPending),
        r is Ok ==> {
            &&& final(vault).slot(state.wallet) == Some(opened(*old(vault), *state, amount, ctx.now))
            &&& final(vault).slot(state.wallet)->0.expiration > 0
            &&& forall|w: Pubkey|
                w != state.wallet ==> final(vault).slot(w) == old(vault).slot(w)
            &&& final(vault).config == old(vault).config
            &&& final(vault).nodes@ == old(vault).nodes@
            &&& final(vault).balances@ == old(vault).balances@
        },
{
    let ghost v0 = *vault;
    if amount > state.balance {
        return Err(ClearnetError::InsufficientAttestedBalance);
    }
    if vault.pending(state.wallet).is_some() {
        return Err(ClearnetError::RequestAlreadyPending);
    }
    let period = match vault.config {
        None => {
            return Err(ClearnetError::NotInitialized);
        },
        Some(c) => c.challenge_period,
    };
    if !verify_quorum(vault, state, sig_valid) {
        return Err(ClearnetError::QuorumVerificationFailed);
    }
    let deadline: i128 = ctx.now as i128 + period as i128;
    if deadline <= 0 || deadline > i64::MAX as i128 {
        return Err(ClearnetError::InvalidClock);
    }
    let expiration = deadline as i64;
    let req = WithdrawalRequest {
        wallet: state.wallet,
        token: state.token,
        amount,
        height: state.height,
        expiration,
    };
    vault.requests.push(req);
    proof {
        lemma_push_request(v0, *vault, req);
    }
    Ok(
        (
            Requested { wallet: state.wallet, token: state.token, amount },
            Challenged { wallet: state.wallet, height: state.height, expiration },
        ),
    )
}

/// `after` is `before` with the claim of wallet `w` closed: no other claim,
/// the configuration and the registry are touched.
pub open spec fn closes(before: Vault, after: Vault, w: Pubkey) -> bool {
    &&& after.wf()
    &&& after.slot(w) is None
    &&& forall|u: Pubkey| u != w ==> after.slot(u) == before.slot(u)
    &&& after.config == before.config
    &&& after.nodes@ == before.nodes@
}

/// Which error `challenge` reports, if any. A challenge may be brought by the
/// wallet's owner or by any active node.
pub open spec fn challenge_error(
    v: Vault,
    challenger: Pubkey,
    candidate: State,
    sig_valid: Seq<bool>,
) -> Option<ClearnetError> {
    match v.slot(candidate.wallet) {
        None => Some(ClearnetError::NoPendingRequest),
        Some(req) => if candidate.height <= req.height {
            Some(ClearnetError::CandidateNotNewer)
        } else if !quorum_holds(v, candidate.participants@, candidate.sigs@.len(), sig_valid) {
            Some(ClearnetError::QuorumVerificationFailed)
        } else if challenger != candidate.wallet && !v.is_active_node(challenger) {
            Some(ClearnetError::UnauthorizedChallenger)
        } else {
            None
        },
    }
}

/// Rejects the pending claim of `candidate.wallet` with an attestation of a
/// greater height; no funds move.
pub fn challenge(
    vault: &mut Vault,
    ctx: &Challenge,
    candidate: &State,
    sig_valid: &Vec<bool>,
) -> (r: Result<Rejected, ClearnetError>)
    requires
        old(vault).wf(),
    ensures
        final(vault).wf(),
        match challenge_error(*old(vault), ctx.challenger, *candidate, sig_valid@) {
            Some(e) => r == Err::<Rejected, ClearnetError>(e) && *final(vault) == *old(vault),
            None => r == Ok::<Rejected, ClearnetError>(
                Rejected {
                    wallet: candidate.wallet,
                    token: old(vault).slot(candidate.wallet)->0.token,
                    amount: old(vault).slot(candidate.wallet)->0.amount,
                },
            ),
        },
        old(vault).slot(candidate.wallet) is Some && candidate.height <= old(vault).slot(
            candidate.wallet,
        )->0.height ==> r == Err::<Rejected, ClearnetError>(ClearnetError::CandidateNotNewer),
        r is Ok ==> closes(*old(vault), *final(vault), candidate.wallet) && final(vault).balances@
            == old(vault).balances@,
{
    let ghost v0 = *vault;
    proof {
        lemma_slot(v0, candidate.wallet);
    }
    let i = match find_request(&vault.requests, candidate.wallet) {
        None => {
            return Err(ClearnetError::NoPendingRequest);
        },
        Some(i) => i,
    };
    let req = vault.requests[i];
    if candidate.height <= req.height {
        return Err(ClearnetError::CandidateNotNewer);
    }
    if !verify_quorum(vault, candidate, sig_valid) {
        return Err(ClearnetError::QuorumVerificationFailed);
    }
    if ctx.challenger != candidate.wallet && !vault.is_active(ctx.challenger) {
        return Err(ClearnetError::UnauthorizedChallenger);
    }
    vault.requests.remove(i);
    proof {
        lemma_remove_request(v0, *vault, i as int);
    }
    Ok(Rejected { wallet: req.wallet, token: req.token, amount: req.amount })
}

/// Which error `withdraw` reports, if any.
pub open spec fn withdraw_error(v: Vault, now: i64, finalize: State) -> Option<ClearnetError> {
    match v.slot(finalize.wallet) {
        None => Some(ClearnetError::NoPendingRequest),
        Some(req) => if finalize.height != req.height {
            Some(ClearnetError::StateMismatch)
        } else if now < req.expiration {
            Some(ClearnetError::ChallengePeriodNotExpired)
        } else if v.balance_of(req.token) < req.amount {
            Some(ClearnetError::InsufficientVaultBalance)
        } else {
            None
        },
    }
}

/// Pays out the pending claim of `finalize.wallet` once its challenge period
/// has passed: the vault's balance of the claimed token drops by the claimed
/// amount, which the caller transfers to the wallet.
pub fn withdraw(vault: &mut Vault, ctx: &Withdraw, finalize: &State) -> (r: Result<
    Withdrawn,
    ClearnetError,
>)
    requires
        old(vault).wf(),
    ensures
        final(vault).wf(),
        match withdraw_error(*old(vault), ctx.now, *finalize) {
            Some(e) => r == Err::<Withdrawn, ClearnetError>(e) && *final(vault) == *old(vault),
            None => r == Ok::<Withdrawn, ClearnetError>(
                Withdrawn {
                    wallet: finalize.wallet,
                    token: old(vault).slot(finalize.wallet)->0.token,
                    amount: old(vault).slot(finalize.wallet)->0.amount,
                },
            ),
        },
        old(vault).slot(finalize.wallet) is Some && finalize.height != old(vault).slot(
            finalize.wallet,
        )->0.height ==> r == Err::<Withdrawn, ClearnetError>(ClearnetError::StateMismatch),
        old(vault).slot(finalize.wallet) is Some && finalize.height == old(vault).slot(
            finalize.wallet,
        )->0.height && ctx.now < old(vault).slot(finalize.wallet)->0.expiration ==> r == Err::<
            Withdrawn,
            ClearnetError,
        >(ClearnetError::ChallengePeriodNotExpired),
        r is Ok ==> {
            let req = old(vault).slot(finalize.wallet)->0;
            &&& closes(*old(vault), *final(vault), finalize.wallet)
            &&& final(vault).balance_of(req.token) == old(vault).balance_of(req.token) - req.amount
            &&& forall|t: Pubkey|
                t != req.token ==> final(vault).balance_of(t) == old(vault).balance_of(t)
        },
{
    let ghost v0 = *vault;
    proof {
        lemma_slot(v0, finalize.wallet);
    }
    let i = match find_request(&vault.requests, finalize.wallet) {
        None => {
            return Err(ClearnetError::NoPendingRequest);
        },
        Some(i) => i,
    };
    let req = vault.requests[i];
    if finalize.height != req.height {
        return Err(ClearnetError::StateMismatch);
    }
    if ctx.now < req.expiration {
        return Err(ClearnetError::ChallengePeriodNotExpired);
    }
    proof {
        lemma_balance(v0, req.token);
    }
    let b = find_balance(&vault.balances, req.token);
    let held: u64 = match b {
        Some(j) => vault.balances[j].amount,
        None => 0,
    };
    if held < req.amount {
        return Err(ClearnetError::InsufficientVaultBalance);
    }
    vault.requests.remove(i);
    let ghost v1 = *vault;
    proof {
        lemma_remove_request(v0, v1, i as int);
    }
    match b {
        Some(j) => {
            vault.balances.set(j, VaultBalance { token: req.token, amount: held - req.amount });
            proof {
                lemma_write_balance(v1, *vault, req.token, j as int, (held - req.amount) as u64);
            }
        },
        None => {},
    }
    proof {
        let v2 = *vault;
        assert forall|u: Pubkey| v2.slot(u) == v1.slot(u) by {
            lemma_slot(v1, u);
            lemma_slot(v2, u);
        }
        assert(closes(v0, v2, finalize.wallet));
        assert(v2.balance_of(req.token) == v0.balance_of(req.token) - req.amount);
    }
    Ok(Withdrawn { wallet: req.wallet, token: req.token, amount: req.amount })
}

} // verus!
