use vstd::prelude::*;

use crate::program::{challenge_error, clock_ok, closes, request_error, withdraw_error};
use crate::quorum::quorum_holds;
use crate::types::{Pubkey, State};
use crate::vault::Vault;

verus! {

/// In every well-formed vault, and so after every operation, a wallet has at
/// most one pending withdrawal request.
pub proof fn lemma_one_pending_per_wallet(v: Vault, w: Pubkey)
    requires
        v.wf(),
    ensures
        forall|i: int, j: int|
            0 <= i < v.requests@.len() && 0 <= j < v.requests@.len() && v.requests@[i].wallet == w
                && v.requests@[j].wallet == w && v.requests@[i].expiration > 0
                && v.requests@[j].expiration > 0 ==> i == j,
{
}

/// A challenge that is strictly newer than the pending claim, carries a quorum
/// and comes from the wallet or an active node succeeds.
pub proof fn lemma_newer_candidate_succeeds(
    v: Vault,
    challenger: Pubkey,
    candidate: State,
    sig_valid: Seq<bool>,
)
    requires
        v.wf(),
        v.slot(candidate.wallet) is Some,
        candidate.height > v.slot(candidate.wallet)->0.height,
        quorum_holds(v, candidate.participants@, candidate.sigs@.len(), sig_valid),
        challenger == candidate.wallet || v.is_active_node(challenger),
    ensures
        challenge_error(v, challenger, candidate, sig_valid) is None,
{
}

/// Once the deadline has passed, presenting the claim's own height pays the
/// claim out, provided the vault holds the claimed amount.
pub proof fn lemma_withdraw_after_deadline(v: Vault, now: i64, finalize: State)
    requires
        v.wf(),
        v.slot(finalize.wallet) is Some,
        finalize.height == v.slot(finalize.wallet)->0.height,
        now >= v.slot(finalize.wallet)->0.expiration,
        v.balance_of(v.slot(finalize.wallet)->0.token) >= v.slot(finalize.wallet)->0.amount,
    ensures
        withdraw_error(v, now, finalize) is None,
{
}

/// After a challenge or a withdrawal has closed a wallet's claim, a new request
/// for that wallet succeeds whenever its balance, quorum and clock conditions
/// hold: the slot is free again.
pub proof fn lemma_request_after_close(
    before: Vault,
    after: Vault,
    state: State,
    amount: u64,
    now: i64,
    sig_valid: Seq<bool>,
)
    requires
        before.wf(),
        before.slot(state.wallet) is Some,
        closes(before, after, state.wallet),
        amount <= state.balance,
        quorum_holds(after, state.participants@, state.sigs@.len(), sig_valid),
        clock_ok(after.config->0.challenge_period, now),
    ensures
        after.config is Some,
        request_error(after, state, amount, now, sig_valid) is None,
{
    crate::vault::lemma_slot(before, state.wallet);
}

} // verus!
