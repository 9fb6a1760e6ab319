use vstd::prelude::*;

use crate::types::{Pubkey, State};
use crate::vault::Vault;

verus! {

/// The quorum policy: the attestation lists at least one participant, carries
/// one signature per participant, every participant is a distinct active node,
/// and every signature was found valid for the state it signs (unanimity).
///
/// `sig_valid[i]` is the outcome of checking the `i`-th signature against the
/// canonical encoding of the state; that check is made by the caller.
pub open spec fn quorum_holds(
    v: Vault,
    participants: Seq<Pubkey>,
    n_sigs: nat,
    sig_valid: Seq<bool>,
) -> bool {
    &&& participants.len() > 0
    &&& n_sigs == participants.len()
    &&& sig_valid.len() == participants.len()
    &&& forall|i: int|
        0 <= i < participants.len() ==> v.is_active_node(participants[i]) && sig_valid[i]
    &&& forall|i: int, j: int|
        0 <= i < participants.len() && 0 <= j < participants.len() && i != j
            ==> participants[i] != participants[j]
}

/// Decides `quorum_holds` for an attestation against the vault's node registry.
pub fn verify_quorum(vault: &Vault, state: &State, sig_valid: &Vec<bool>) -> (r: bool)
    requires
        vault.wf(),
    ensures
        r == quorum_holds(*vault, state.participants@, state.sigs@.len(), sig_valid@),
{
    let n = state.participants.len();
    if n == 0 || state.sigs.len() != n || sig_valid.len() != n {
        return false;
    }
    let ghost p = state.participants@;
    let mut i: usize = 0;
    while i < n
        invariant
            vault.wf(),
            p == state.participants@,
            n == p.len(),
            n == sig_valid@.len(),
            i <= n,
            forall|k: int| 0 <= k < i ==> vault.is_active_node(#[trigger] p[k]),
            forall|k: int| 0 <= k < i ==> #[trigger] sig_valid@[k],
            forall|k: int, l: int| 0 <= l < k < i ==> p[k] != p[l],
        decreases n - i,
    {
        if !sig_valid[i] {
            return false;
        }
        let w = state.participants[i];
        if !vault.is_active(w) {
            return false;
        }
        if listed_before(&state.participants, i) {
            return false;
        }
        i += 1;
    }
    assert forall|k: int, l: int| 0 <= k < n && 0 <= l < n && k != l implies p[k] != p[l] by {
        if k < l {
            assert(p[l] != p[k]);
        }
    }
    true
}

/// Whether `p[i]` already occurs among the first `i` entries of `p`.
fn listed_before(p: &Vec<Pubkey>, i: usize) -> (r: bool)
    requires
        i < p@.len(),
    ensures
        r == exists|l: int| 0 <= l < i && p@[l] == p@[i as int],
{
    let mut j: usize = 0;
    while j < i
        invariant
            i < p@.len(),
            j <= i,
            forall|l: int| 0 <= l < j ==> p@[l] != p@[i as int],
        decreases i - j,
    {
        if p[j] == p[i] {
            return true;
        }
        j += 1;
    }
    false
}

} // verus!
