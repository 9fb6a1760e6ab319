use vstd::prelude::*;

use crate::types::{NodeEntry, Pubkey, VaultConfig, WithdrawalRequest};

verus! {

/// What the vault holds of one token.
#[derive(Clone, Copy, Debug, PartialEq, Eq, Structural)]
pub struct VaultBalance {
    pub token: Pubkey,
    pub amount: u64,
}

/// All storage the protocol touches: the configuration, the node registry, one
/// request slot per wallet (present only while a claim is pending) and the
/// pooled balance of each token.
#[derive(Clone, Debug)]
pub struct Vault {
    pub config: Option<VaultConfig>,
    pub nodes: Vec<NodeEntry>,
    pub requests: Vec<WithdrawalRequest>,
    pub balances: Vec<VaultBalance>,
}

impl Vault {
    /// Keys are unique in each store, every stored request is pending, and no
    /// request exists before the vault is configured.
    pub open spec fn wf(&self) -> bool {
        &&& forall|i: int, j: int|
            0 <= i < self.nodes@.len() && 0 <= j < self.nodes@.len() && i != j
                ==> self.nodes@[i].authority != self.nodes@[j].authority
        &&& forall|i: int, j: int|
            0 <= i < self.requests@.len() && 0 <= j < self.requests@.len() && i != j
                ==> self.requests@[i].wallet != self.requests@[j].wallet
        &&& forall|i: int| 0 <= i < self.requests@.len() ==> self.requests@[i].expiration > 0
        &&& forall|i: int, j: int|
            0 <= i < self.balances@.len() && 0 <= j < self.balances@.len() && i != j
                ==> self.balances@[i].token != self.balances@[j].token
        &&& self.config is None ==> self.requests@.len() == 0
    }

    /// The registry's flag for `w`, if `w` was ever registered.
    pub open spec fn node_status(&self, w: Pubkey) -> Option<bool> {
        if exists|i: int| 0 <= i < self.nodes@.len() && self.nodes@[i].authority == w {
            Some(
                self.nodes@[choose|i: int|
                    0 <= i < self.nodes@.len() && self.nodes@[i].authority == w].is_active,
            )
        } else {
            None
        }
    }

    pub open spec fn is_active_node(&self, w: Pubkey) -> bool {
        self.node_status(w) == Some(true)
    }

    /// The pending request of wallet `w`, if there is one.
    pub open spec fn slot(&self, w: Pubkey) -> Option<WithdrawalRequest> {
        if exists|i: int| 0 <= i < self.requests@.len() && self.requests@[i].wallet == w {
            Some(
                self.requests@[choose|i: int|
                    0 <= i < self.requests@.len() && self.requests@[i].wallet == w],
            )
        } else {
            None
        }
    }

    /// How much of token `t` the vault holds.
    pub open spec fn balance_of(&self, t: Pubkey) -> u64 {
        if exists|i: int| 0 <= i < self.balances@.len() && self.balances@[i].token == t {
            self.balances@[choose|i: int|
                0 <= i < self.balances@.len() && self.balances@[i].token == t].amount
        } else {
            0
        }
    }

    /// An unconfigured vault with empty stores.
    pub fn new() -> (r: Vault)
        ensures
            r.wf(),
            r.config is None,
            r.nodes@.len() == 0,
            r.requests@.len() == 0,
            r.balances@.len() == 0,
    {
        Vault { config: None, nodes: Vec::new(), requests: Vec::new(), balances: Vec::new() }
    }

    /// Whether `w` is a registered node whose flag is set.
    pub fn is_active(&self, w: Pubkey) -> (r: bool)
        requires
            self.wf(),
        ensures
            r == self.is_active_node(w),
    {
        proof {
            lemma_node_status(*self, w);
        }
        match find_node(&self.nodes, w) {
            Some(i) => self.nodes[i].is_active,
            None => false,
        }
    }

    /// The pending request of wallet `w`, if there is one.
    pub fn pending(&self, w: Pubkey) -> (r: Option<WithdrawalRequest>)
        requires
            self.wf(),
        ensures
            r == self.slot(w),
    {
        proof {
            lemma_slot(*self, w);
        }
        match find_request(&self.requests, w) {
            Some(i) => Some(self.requests[i]),
            None => None,
        }
    }

    /// How much of token `t` the vault holds.
    pub fn vault_balance(&self, t: Pubkey) -> (r: u64)
        requires
            self.wf(),
        ensures
            r == self.balance_of(t),
    {
        proof {
            lemma_balance(*self, t);
        }
        match find_balance(&self.balances, t) {
            Some(i) => self.balances[i].amount,
            None => 0,
        }
    }
}

/// The registry's flag for `w` is that of the one entry keyed by `w`.
pub proof fn lemma_node_status(v: Vault, w: Pubkey)
    requires
        v.wf(),
    ensures
        forall|k: int|
            0 <= k < v.nodes@.len() && v.nodes@[k].authority == w
                ==> v.node_status(w) == Some(v.nodes@[k].is_active),
        (forall|k: int| 0 <= k < v.nodes@.len() ==> v.nodes@[k].authority != w)
            ==> v.node_status(w) is None,
{
}

/// The slot of `w` is the one stored request of wallet `w`.
pub proof fn lemma_slot(v: Vault, w: Pubkey)
    requires
        v.wf(),
    ensures
        forall|k: int|
            0 <= k < v.requests@.len() && v.requests@[k].wallet == w
                ==> v.slot(w) == Some(v.requests@[k]),
        (forall|k: int| 0 <= k < v.requests@.len() ==> v.requests@[k].wallet != w)
            ==> v.slot(w) is None,
{
}

/// The balance of `t` is that of the one entry keyed by `t`, or zero.
pub proof fn lemma_balance(v: Vault, t: Pubkey)
    requires
        v.wf(),
    ensures
        forall|k: int|
            0 <= k < v.balances@.len() && v.balances@[k].token == t
                ==> v.balance_of(t) == v.balances@[k].amount,
        (forall|k: int| 0 <= k < v.balances@.len() ==> v.balances@[k].token != t)
            ==> v.balance_of(t) == 0,
{
}

/// Removing the request at index `i` frees the slot of its wallet and leaves
/// every other wallet's slot as it was.
pub proof fn lemma_remove_request(v0: Vault, v1: Vault, i: int)
    requires
        v0.wf(),
        0 <= i < v0.requests@.len(),
        v1.requests@ == v0.requests@.remove(i),
        v1.config == v0.config,
        v1.nodes@ == v0.nodes@,
        v1.balances@ == v0.balances@,
    ensures
        v1.wf(),
        v1.slot(v0.requests@[i].wallet) is None,
        forall|w: Pubkey| w != v0.requests@[i].wallet ==> v1.slot(w) == v0.slot(w),
{
    let w0 = v0.requests@[i].wallet;
    assert forall|a: int, b: int|
        0 <= a < v1.requests@.len() && 0 <= b < v1.requests@.len() && a != b
            implies v1.requests@[a].wallet != v1.requests@[b].wallet by {
        let a0 = if a < i { a } else { a + 1 };
        let b0 = if b < i { b } else { b + 1 };
        assert(v1.requests@[a] == v0.requests@[a0]);
        assert(v1.requests@[b] == v0.requests@[b0]);
    }
    assert forall|k: int| 0 <= k < v1.requests@.len() implies v1.requests@[k].wallet != w0 by {
        let k0 = if k < i { k } else { k + 1 };
        assert(v1.requests@[k] == v0.requests@[k0]);
    }
    lemma_slot(v1, w0);
    assert forall|w: Pubkey| w != w0 implies v1.slot(w) == v0.slot(w) by {
        lemma_slot(v0, w);
        lemma_slot(v1, w);
        if exists|k: int| 0 <= k < v0.requests@.len() && v0.requests@[k].wallet == w {
            let k = choose|k: int| 0 <= k < v0.requests@.len() && v0.requests@[k].wallet == w;
            if k < i {
                assert(v1.requests@[k] == v0.requests@[k]);
            } else {
                assert(v1.requests@[k - 1] == v0.requests@[k]);
            }
        } else {
            assert forall|k: int| 0 <= k < v1.requests@.len() implies v1.requests@[k].wallet
                != w by {
                let k0 = if k < i { k } else { k + 1 };
                assert(v1.requests@[k] == v0.requests@[k0]);
            }
        }
    }
}

/// Appending a request for a wallet without one fills that wallet's slot and
/// leaves every other wallet's slot as it was.
pub proof fn lemma_push_request(v0: Vault, v1: Vault, req: WithdrawalRequest)
    requires
        v0.wf(),
        v0.slot(req.wallet) is None,
        req.expiration > 0,
        v0.config is Some,
        v1.requests@ == v0.requests@.push(req),
        v1.config == v0.config,
        v1.nodes@ == v0.nodes@,
        v1.balances@ == v0.balances@,
    ensures
        v1.wf(),
        v1.slot(req.wallet) == Some(req),
        forall|w: Pubkey| w != req.wallet ==> v1.slot(w) == v0.slot(w),
{
    let n = v0.requests@.len() as int;
    assert forall|k: int| 0 <= k < n implies v0.requests@[k].wallet != req.wallet by {
        lemma_slot(v0, req.wallet);
    }
    assert(v1.requests@[n] == req);
    lemma_slot(v1, req.wallet);
    assert forall|w: Pubkey| w != req.wallet implies v1.slot(w) == v0.slot(w) by {
        lemma_slot(v0, w);
        lemma_slot(v1, w);
        if exists|k: int| 0 <= k < n && v0.requests@[k].wallet == w {
            let k = choose|k: int| 0 <= k < n && v0.requests@[k].wallet == w;
            assert(v1.requests@[k] == v0.requests@[k]);
        } else {
            assert forall|k: int| 0 <= k < v1.requests@.len() implies v1.requests@[k].wallet
                != w by {
                if k < n {
                    assert(v1.requests@[k] == v0.requests@[k]);
                }
            }
        }
    }
}

/// Writing the entry of token `t` (in place, or appended when `t` had none)
/// sets the balance of `t` and leaves every other token's balance as it was.
pub proof fn lemma_write_balance(v0: Vault, v1: Vault, t: Pubkey, at: int, amount: u64)
    requires
        v0.wf(),
        v1.config == v0.config,
        v1.nodes@ == v0.nodes@,
        v1.requests@ == v0.requests@,
        0 <= at <= v0.balances@.len(),
        at < v1.balances@.len(),
        v1.balances@[at] == (VaultBalance { token: t, amount }),
        at < v0.balances@.len() ==> v0.balances@[at].token == t && v1.balances@.len()
            == v0.balances@.len(),
        at == v0.balances@.len() ==> v1.balances@.len() == v0.balances@.len() + 1 && forall|
            k: int,
        |
            0 <= k < v0.balances@.len() ==> v0.balances@[k].token != t,
        forall|k: int| 0 <= k < v0.balances@.len() && k != at ==> v1.balances@[k] == v0.balances@[k],
    ensures
        v1.wf(),
        v1.balance_of(t) == amount,
        forall|u: Pubkey| u != t ==> v1.balance_of(u) == v0.balance_of(u),
{
    let n = v0.balances@.len() as int;
    assert forall|a: int, b: int|
        0 <= a < v1.balances@.len() && 0 <= b < v1.balances@.len() && a != b
            implies v1.balances@[a].token != v1.balances@[b].token by {
        if a != at && b != at {
            assert(v1.balances@[a] == v0.balances@[a]);
            assert(v1.balances@[b] == v0.balances@[b]);
        } else if a == at {
            assert(v1.balances@[b] == v0.balances@[b]);
        } else {
            assert(v1.balances@[a] == v0.balances@[a]);
        }
    }
    lemma_balance(v1, t);
    assert forall|u: Pubkey| u != t implies v1.balance_of(u) == v0.balance_of(u) by {
        lemma_balance(v0, u);
        lemma_balance(v1, u);
        if exists|k: int| 0 <= k < n && v0.balances@[k].token == u {
            let k = choose|k: int| 0 <= k < n && v0.balances@[k].token == u;
            assert(k != at);
            assert(v1.balances@[k] == v0.balances@[k]);
        } else {
            assert forall|k: int| 0 <= k < v1.balances@.len() implies v1.balances@[k].token
                != u by {
                if k != at {
                    assert(v1.balances@[k] == v0.balances@[k]);
                }
            }
        }
    }
}

pub(crate) fn find_node(nodes: &Vec<NodeEntry>, w: Pubkey) -> (r: Option<usize>)
    ensures
        match r {
            Some(i) => i < nodes@.len() && nodes@[i as int].authority == w,
            None => forall|k: int| 0 <= k < nodes@.len() ==> nodes@[k].authority != w,
        },
{
    let mut i: usize = 0;
    while i < nodes.len()
        invariant
            i <= nodes@.len(),
            forall|k: int| 0 <= k < i ==> nodes@[k].authority != w,
        decreases nodes@.len() - i,
    {
        if nodes[i].authority == w {
            return Some(i);
        }
        i += 1;
    }
    None
}

pub(crate) fn find_request(requests: &Vec<WithdrawalRequest>, w: Pubkey) -> (r: Option<usize>)
    ensures
        match r {
            Some(i) => i < requests@.len() && requests@[i as int].wallet == w,
            None => forall|k: int| 0 <= k < requests@.len() ==> requests@[k].wallet != w,
        },
{
    let mut i: usize = 0;
    while i < requests.len()
        invariant
            i <= requests@.len(),
            forall|k: int| 0 <= k < i ==> requests@[k].wallet != w,
        decreases requests@.len() - i,
    {
        if requests[i].wallet == w {
            return Some(i);
        }
        i += 1;
    }
    None
}

pub(crate) fn find_balance(balances: &Vec<VaultBalance>, t: Pubkey) -> (r: Option<usize>)
    ensures
        match r {
            Some(i) => i < balances@.len() && balances@[i as int].token == t,
            None => forall|k: int| 0 <= k < balances@.len() ==> balances@[k].token != t,
        },
{
    let mut i: usize = 0;
    while i < balances.len()
        invariant
            i <= balances@.len(),
            forall|k: int| 0 <= k < i ==> balances@[k].token != t,
        decreases balances@.len() - i,
    {
        if balances[i].token == t {
            return Some(i);
        }
        i += 1;
    }
    None
}

} // verus!
