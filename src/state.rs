use vstd::prelude::*;

use crate::msg::{ContractStatusLevel, Snip20};

verus! {

/// Evidence of a payment on the external chain, consumed by one mint.
#[derive(Debug)]
pub struct MoneroProof {
    /// Transaction id on the external chain; unique across the proof ledger.
    pub tx_id: String,
    /// Payment verification key.
    pub tx_key: String,
    /// Address the payment was sent to.
    pub address: String,
}

/// A withdrawal request recorded from a burn notification.
#[derive(Debug)]
pub struct SwapDetails {
    pub to_monero_address: String,
    pub from_secret_address: String,
    pub amount: u128,
    /// Position of the record in the swap ledger.
    pub nonce: u32,
}

/// Configuration fields that change together.
#[derive(Debug)]
pub struct Constants {
    pub admin: String,
    pub snip20: Snip20,
    /// This contract's own read credential with the token service.
    pub viewing_key: String,
    pub prng_seed: Vec<u8>,
}

/// True when `who` is one of `list`.
pub open spec fn listed(list: Seq<String>, who: Seq<char>) -> bool {
    exists|i: int| 0 <= i < list.len() && (#[trigger] list[i])@ == who
}

/// Whether `who` is one of `list`, by a full scan.
pub fn contains_identity(list: &Vec<String>, who: &String) -> (r: bool)
    ensures
        r == listed(list@, who@),
{
    let mut i: usize = 0;
    while i < list.len()
        invariant
            i <= list.len(),
            forall|j: int| 0 <= j < i ==> (#[trigger] list@[j])@ != who@,
        decreases list.len() - i,
    {
        if list[i] == *who {
            return true;
        }
        i = i + 1;
    }
    false
}

/// The configuration singleton.
#[derive(Debug)]
pub struct ConfigStore {
    pub constants: Constants,
    pub minters: Vec<String>,
    pub status: ContractStatusLevel,
    pub min_swap: u128,
}

impl ConfigStore {
    pub fn constants(&self) -> (r: &Constants)
        ensures
            *r == self.constants,
    {
        &self.constants
    }

    pub fn set_constants(&mut self, constants: Constants)
        ensures
            *final(self) == (ConfigStore { constants, ..*old(self) }),
    {
        self.constants = constants;
    }

    pub fn min_swap_amount(&self) -> (r: u128)
        ensures
            r == self.min_swap,
    {
        self.min_swap
    }

    pub fn set_min_swap(&mut self, min: u128)
        ensures
            *final(self) == (ConfigStore { min_swap: min, ..*old(self) }),
    {
        self.min_swap = min;
    }

    pub fn contract_status(&self) -> (r: ContractStatusLevel)
        ensures
            r == self.status,
    {
        self.status
    }

    pub fn set_contract_status(&mut self, status: ContractStatusLevel)
        ensures
            *final(self) == (ConfigStore { status, ..*old(self) }),
    {
        self.status = status;
    }

    pub fn minters(&self) -> (r: &Vec<String>)
        ensures
            *r == self.minters,
    {
        &self.minters
    }

    pub fn set_minters(&mut self, minters: Vec<String>)
        ensures
            *final(self) == (ConfigStore { minters, ..*old(self) }),
    {
        self.minters = minters;
    }

    pub open spec fn is_admin_spec(&self, who: Seq<char>) -> bool {
        self.constants.admin@ == who
    }

    pub fn is_admin(&self, who: &String) -> (r: bool)
        ensures
            r == self.is_admin_spec(who@),
    {
        self.constants.admin == *who
    }

    pub fn is_minter(&self, who: &String) -> (r: bool)
        ensures
            r == listed(self.minters@, who@),
    {
        contains_identity(&self.minters, who)
    }
}

/// Append-only log of consumed mint proofs.
#[derive(Debug)]
pub struct MoneroProofsStore {
    pub proofs: Vec<MoneroProof>,
}

/// True when some proof of `proofs` has transaction id `tx_id`.
pub open spec fn tx_id_used(proofs: Seq<MoneroProof>, tx_id: Seq<char>) -> bool {
    exists|i: int| 0 <= i < proofs.len() && (#[trigger] proofs[i]).tx_id@ == tx_id
}

impl MoneroProofsStore {
    /// No two proofs share a transaction id.
    pub open spec fn wf(&self) -> bool {
        forall|i: int, j: int|
            0 <= i < j < self.proofs.len() ==> (#[trigger] self.proofs@[i]).tx_id@
                != (#[trigger] self.proofs@[j]).tx_id@
    }

    /// Whether no two proofs share a transaction id, by comparing every pair.
    pub fn check_wf(&self) -> (r: bool)
        ensures
            r == self.wf(),
    {
        let n = self.proofs.len();
        let mut j: usize = 0;
        while j < n
            invariant
                n == self.proofs.len(),
                j <= n,
                forall|a: int, b: int|
                    0 <= a < b < j ==> (#[trigger] self.proofs@[a]).tx_id@ != (#[trigger] self.proofs@[b]).tx_id@,
            decreases n - j,
        {
            let mut i: usize = 0;
            while i < j
                invariant
                    n == self.proofs.len(),
                    i <= j < n,
                    forall|a: int| 0 <= a < i ==> (#[trigger] self.proofs@[a]).tx_id@ != self.proofs@[j as int].tx_id@,
                decreases j - i,
            {
                if self.proofs[i].tx_id == self.proofs[j].tx_id {
                    return false;
                }
                i = i + 1;
            }
            j = j + 1;
        }
        true
    }

    pub fn init() -> (r: MoneroProofsStore)
        ensures
            r.proofs@.len() == 0,
            r.wf(),
    {
        MoneroProofsStore { proofs: Vec::new() }
    }

    /// The proof recorded under `tx_id`, if any.
    pub fn fetch_by_tx_id(&self, tx_id: &String) -> (r: Option<&MoneroProof>)
        requires
            self.wf(),
        ensures
            r is None <==> !tx_id_used(self.proofs@, tx_id@),
            r matches Some(p) ==> p.tx_id@ == tx_id@ && exists|i: int|
                0 <= i < self.proofs.len() && self.proofs@[i] == *p,
    {
        let mut i: usize = 0;
        while i < self.proofs.len()
            invariant
                i <= self.proofs.len(),
                forall|j: int| 0 <= j < i ==> (#[trigger] self.proofs@[j]).tx_id@ != tx_id@,
            decreases self.proofs.len() - i,
        {
            if self.proofs[i].tx_id == *tx_id {
                return Some(&self.proofs[i]);
            }
            i = i + 1;
        }
        None
    }

    /// Whether a proof with this transaction id was consumed before.
    pub fn contains(&self, tx_id: &String) -> (r: bool)
        requires
            self.wf(),
        ensures
            r == tx_id_used(self.proofs@, tx_id@),
    {
        self.fetch_by_tx_id(tx_id).is_some()
    }

    /// Appends a proof whose transaction id is new.
    pub fn save(&mut self, mp: MoneroProof)
        requires
            old(self).wf(),
            !tx_id_used(old(self).proofs@, mp.tx_id@),
        ensures
            final(self).wf(),
            final(self).proofs@ == old(self).proofs@.push(mp),
    {
        self.proofs.push(mp);
        assert forall|i: int, j: int|
            0 <= i < j < self.proofs.len() implies (#[trigger] self.proofs@[i]).tx_id@
            != (#[trigger] self.proofs@[j]).tx_id@ by {
            if j == self.proofs.len() - 1 {
                assert(old(self).proofs@[i] == self.proofs@[i]);
            }
        }
    }
}

/// Append-only log of withdrawal requests, indexed by insertion order.
#[derive(Debug)]
pub struct SwapDetailsStore {
    pub swaps: Vec<SwapDetails>,
}

impl SwapDetailsStore {
    /// Each record's nonce is its position; positions fit in a `u32`.
    pub open spec fn wf(&self) -> bool {
        &&& self.swaps.len() <= u32::MAX as nat + 1
        &&& forall|i: int| 0 <= i < self.swaps.len() ==> (#[trigger] self.swaps@[i]).nonce == i
    }

    /// Whether every record sits at the position its nonce names.
    pub fn check_wf(&self) -> (r: bool)
        ensures
            r == self.wf(),
    {
        if self.swaps.len() as u64 > 4294967296u64 {
            return false;
        }
        let mut i: usize = 0;
        while i < self.swaps.len()
            invariant
                i <= self.swaps.len() <= u32::MAX as nat + 1,
                forall|a: int| 0 <= a < i ==> (#[trigger] self.swaps@[a]).nonce == a,
            decreases self.swaps.len() - i,
        {
            if self.swaps[i].nonce as usize != i {
                return false;
            }
            i = i + 1;
        }
        true
    }

    pub fn init() -> (r: SwapDetailsStore)
        ensures
            r.swaps@.len() == 0,
            r.wf(),
    {
        SwapDetailsStore { swaps: Vec::new() }
    }

    pub fn len(&self) -> (r: usize)
        ensures
            r == self.swaps.len(),
    {
        self.swaps.len()
    }

    /// Appends a record under the next nonce, which is returned.
    pub fn save(&mut self, sd: SwapDetails) -> (nonce: u32)
        requires
            old(self).wf(),
            old(self).swaps.len() <= u32::MAX,
        ensures
            final(self).wf(),
            nonce == old(self).swaps.len(),
            final(self).swaps@ == old(self).swaps@.push(SwapDetails { nonce, ..sd }),
    {
        let nonce = self.swaps.len() as u32;
        let mut sd = sd;
        sd.nonce = nonce;
        self.swaps.push(sd);
        nonce
    }

    /// The record with this nonce, provided that it belongs to `scrt_addr`.
    pub fn fetch_swap_details(&self, scrt_addr: &String, nonce: u32) -> (r: Option<&SwapDetails>)
        requires
            self.wf(),
        ensures
            r is None <==> !(nonce < self.swaps.len() && self.swaps@[nonce as int].from_secret_address@
                == scrt_addr@),
            r matches Some(sd) ==> *sd == self.swaps@[nonce as int],
    {
        let n = nonce as usize;
        if n < self.swaps.len() && self.swaps[n].from_secret_address == *scrt_addr {
            Some(&self.swaps[n])
        } else {
            None
        }
    }
}

/// Per-identity digests of viewing keys.
#[derive(Debug)]
pub struct ViewingKeyStore {
    pub entries: Vec<(String, Vec<u8>)>,
}

impl ViewingKeyStore {
    /// Each identity has at most one entry.
    pub open spec fn wf(&self) -> bool {
        forall|i: int, j: int|
            0 <= i < self.entries.len() && 0 <= j < self.entries.len() && (
            #[trigger] self.entries@[i]).0@ == (#[trigger] self.entries@[j]).0@ ==> i == j
    }

    /// The digest registered for `who`, if any.
    pub open spec fn credential(&self, who: Seq<char>) -> Option<Seq<u8>> {
        if exists|i: int| 0 <= i < self.entries.len() && (#[trigger] self.entries@[i]).0@ == who {
            let i = choose|i: int| 0 <= i < self.entries.len() && (#[trigger] self.entries@[i]).0@ == who;
            Some(self.entries@[i].1@)
        } else {
            None
        }
    }

    /// Whether each identity has at most one entry, by comparing every pair.
    pub fn check_wf(&self) -> (r: bool)
        ensures
            r == self.wf(),
    {
        let n = self.entries.len();
        let mut j: usize = 0;
        while j < n
            invariant
                n == self.entries.len(),
                j <= n,
                forall|a: int, b: int|
                    0 <= a < b < j ==> (#[trigger] self.entries@[a]).0@ != (#[trigger] self.entries@[b]).0@,
            decreases n - j,
        {
            let mut i: usize = 0;
            while i < j
                invariant
                    n == self.entries.len(),
                    i <= j < n,
                    forall|a: int| 0 <= a < i ==> (#[trigger] self.entries@[a]).0@ != self.entries@[j as int].0@,
                decreases j - i,
            {
                if self.entries[i].0 == self.entries[j].0 {
                    return false;
                }
                i = i + 1;
            }
            j = j + 1;
        }
        assert forall|a: int, b: int|
            0 <= a < n && 0 <= b < n && (#[trigger] self.entries@[a]).0@ == (#[trigger] self.entries@[b]).0@
            implies a == b by {
            if a < b {
            } else if b < a {
            }
        }
        true
    }

    pub fn init() -> (r: ViewingKeyStore)
        ensures
            r.wf(),
            forall|who: Seq<char>| r.credential(who) is None,
    {
        ViewingKeyStore { entries: Vec::new() }
    }

    fn position(&self, owner: &String) -> (r: Option<usize>)
        requires
            self.wf(),
        ensures
            r is None <==> self.credential(owner@) is None,
            r matches Some(i) ==> i < self.entries.len() && self.entries@[i as int].0@ == owner@
                && self.credential(owner@) == Some(self.entries@[i as int].1@),
    {
        let mut i: usize = 0;
        while i < self.entries.len()
            invariant
                self.wf(),
                i <= self.entries.len(),
                forall|j: int| 0 <= j < i ==> (#[trigger] self.entries@[j]).0@ != owner@,
            decreases self.entries.len() - i,
        {
            if self.entries[i].0 == *owner {
                assert(self.entries@[i as int].0@ == owner@);
                let ghost w = choose|k: int| 0 <= k < self.entries.len() && (#[trigger] self.entries@[k]).0@ == owner@;
                assert(self.entries@[w].0@ == self.entries@[i as int].0@);
                return Some(i);
            }
            i = i + 1;
        }
        None
    }

    /// Stores `digest` as the credential of `owner`, replacing any earlier one.
    pub fn set_viewing_key(&mut self, owner: &String, digest: Vec<u8>)
        requires
            old(self).wf(),
        ensures
            final(self).wf(),
            final(self).credential(owner@) == Some(digest@),
            forall|who: Seq<char>| who != owner@ ==> final(self).credential(who) == old(self).credential(who),
    {
        let ghost pre = self.entries@;
        let ghost idx: int;
        match self.position(owner) {
            Some(i) => {
                self.entries.set(i, (owner.clone(), digest));
                proof { idx = i as int; }
            },
            None => {
                self.entries.push((owner.clone(), digest));
                proof { idx = pre.len() as int; }
            },
        }
        let ghost post = self.entries@;
        assert forall|a: int, b: int|
            0 <= a < post.len() && 0 <= b < post.len() && (#[trigger] post[a]).0@ == (#[trigger] post[b]).0@
            implies a == b by {
            if a < pre.len() && b < pre.len() && post[a] != pre[a] {
                assert(pre[a].0@ == owner@);
            }
            if a < pre.len() && b < pre.len() && post[b] != pre[b] {
                assert(pre[b].0@ == owner@);
            }
        }
        assert(self.wf());
        assert(post[idx].0@ == owner@);
        let ghost k = choose|k: int| 0 <= k < post.len() && (#[trigger] post[k]).0@ == owner@;
        assert(post[k].0@ == post[idx].0@);
        assert forall|who: Seq<char>| who != owner@ implies self.credential(who) == old(self).credential(who) by {
            if exists|k: int| 0 <= k < pre.len() && (#[trigger] pre[k]).0@ == who {
                let k = choose|k: int| 0 <= k < pre.len() && (#[trigger] pre[k]).0@ == who;
                assert(post[k] == pre[k]);
            }
            if exists|k: int| 0 <= k < post.len() && (#[trigger] post[k]).0@ == who {
                let k = choose|k: int| 0 <= k < post.len() && (#[trigger] post[k]).0@ == who;
                assert(post[k] == pre[k]);
            }
        }
    }

    /// The digest registered for `owner`, if any.
    pub fn read_viewing_key(&self, owner: &String) -> (r: Option<&Vec<u8>>)
        requires
            self.wf(),
        ensures
            r matches Some(d) ==> self.credential(owner@) == Some(d@),
            r is None <==> self.credential(owner@) is None,
    {
        match self.position(owner) {
            Some(i) => Some(&self.entries[i].1),
            None => None,
        }
    }
}

} // verus!
