use vstd::prelude::*;

use crate::crypto::{hash_viewing_key, key_digest, sha_256, sha_256_of};
use crate::msg::{
    ContractError, ContractStatusLevel, HandleMsg, HandleResponse, HandleResult, InitMsg,
    OutboundMsg, ResponseStatus, Snip20, SwapRequest,
};
use crate::query_messages::{QueryMsg, QueryOutcome, QueryResponse};
use crate::state::{
    listed, tx_id_used, ConfigStore, Constants, MoneroProof, MoneroProofsStore, SwapDetails,
    SwapDetailsStore, ViewingKeyStore,
};

verus! {

/// The whole state of the bridge: configuration and the three ledgers.
#[derive(Debug)]
pub struct Bridge {
    pub config: ConfigStore,
    pub proofs: MoneroProofsStore,
    pub swaps: SwapDetailsStore,
    pub viewing_keys: ViewingKeyStore,
}

impl Bridge {
    pub open spec fn wf(&self) -> bool {
        &&& self.proofs.wf()
        &&& self.swaps.wf()
        &&& self.viewing_keys.wf()
    }
}

pub type HandleOutcome = Result<HandleResponse, ContractError>;

/// The command succeeded with this status record and these outbound messages.
pub open spec fn succeeded(r: HandleOutcome, data: HandleResult, messages: Seq<OutboundMsg>) -> bool {
    r matches Ok(resp) && resp.data == data && resp.messages@ == messages
}

/// The command failed with `e` and the state is unchanged.
pub open spec fn refused(pre: Bridge, post: Bridge, r: HandleOutcome, e: ContractError) -> bool {
    r == Err::<HandleResponse, ContractError>(e) && post == pre
}

/// Only the configuration may have changed.
pub open spec fn ledgers_kept(pre: Bridge, post: Bridge) -> bool {
    &&& post.proofs == pre.proofs
    &&& post.swaps == pre.swaps
    &&& post.viewing_keys == pre.viewing_keys
}

/// The state after replacing the configuration of `pre`.
pub open spec fn with_config(pre: Bridge, post: Bridge, config: ConfigStore) -> bool {
    ledgers_kept(pre, post) && post.config == config
}

pub open spec fn with_constants(pre: Bridge, post: Bridge, constants: Constants) -> bool {
    with_config(pre, post, ConfigStore { constants, ..pre.config })
}

pub open spec fn change_admin_post(
    pre: Bridge,
    post: Bridge,
    sender: Seq<char>,
    address: String,
    r: HandleOutcome,
) -> bool {
    if !pre.config.is_admin_spec(sender) {
        refused(pre, post, r, ContractError::NotAdmin)
    } else {
        &&& succeeded(r, HandleResult::ChangeAdmin { status: ResponseStatus::Success }, seq![])
        &&& with_constants(pre, post, Constants { admin: address, ..pre.config.constants })
    }
}

pub open spec fn change_contract_post(
    pre: Bridge,
    post: Bridge,
    sender: Seq<char>,
    token: Snip20,
    r: HandleOutcome,
) -> bool {
    if !pre.config.is_admin_spec(sender) {
        refused(pre, post, r, ContractError::NotAdmin)
    } else {
        &&& succeeded(
            r,
            HandleResult::ChangeSecretMoneroContract { status: ResponseStatus::Success },
            seq![
                OutboundMsg::DeregisterReceive { token: pre.config.constants.snip20 },
                OutboundMsg::RegisterReceive { token },
                OutboundMsg::SetViewingKey { key: pre.config.constants.viewing_key, token },
            ],
        )
        &&& with_constants(pre, post, Constants { snip20: token, ..pre.config.constants })
    }
}

/// The admin rotates the contract's own credential with the token service; any
/// other caller sets its own viewing key.
pub open spec fn set_viewing_key_post(
    pre: Bridge,
    post: Bridge,
    sender: Seq<char>,
    key: String,
    r: HandleOutcome,
) -> bool {
    if pre.config.is_admin_spec(sender) {
        &&& succeeded(
            r,
            HandleResult::SetViewingKey { status: ResponseStatus::Success },
            seq![OutboundMsg::SetViewingKey { key, token: pre.config.constants.snip20 }],
        )
        &&& with_constants(pre, post, Constants { viewing_key: key, ..pre.config.constants })
    } else {
        &&& succeeded(r, HandleResult::SetViewingKey { status: ResponseStatus::Success }, seq![])
        &&& post.config == pre.config
        &&& post.proofs == pre.proofs
        &&& post.swaps == pre.swaps
        &&& post.viewing_keys.credential(sender) == Some(key_digest(key@))
        &&& forall|who: Seq<char>|
            who != sender ==> post.viewing_keys.credential(who) == pre.viewing_keys.credential(who)
    }
}

pub open spec fn mint_post(
    pre: Bridge,
    post: Bridge,
    sender: Seq<char>,
    proof: MoneroProof,
    recipient: String,
    amount: u128,
    r: HandleOutcome,
) -> bool {
    if !listed(pre.config.minters@, sender) {
        refused(pre, post, r, ContractError::NotMinter)
    } else if tx_id_used(pre.proofs.proofs@, proof.tx_id@) {
        refused(pre, post, r, ContractError::ReplayedProof)
    } else {
        &&& succeeded(
            r,
            HandleResult::MintSecretMonero { status: ResponseStatus::Success },
            seq![OutboundMsg::Mint { recipient, amount, token: pre.config.constants.snip20 }],
        )
        &&& post.config == pre.config
        &&& post.proofs.proofs@ == pre.proofs.proofs@.push(proof)
        &&& post.swaps == pre.swaps
        &&& post.viewing_keys == pre.viewing_keys
    }
}

/// The record that a burn notification appends.
pub open spec fn swap_record(pre: Bridge, from: String, amount: u128, req: SwapRequest) -> SwapDetails {
    SwapDetails {
        to_monero_address: req.to_monero_address,
        from_secret_address: from,
        amount,
        nonce: pre.swaps.swaps.len() as u32,
    }
}

pub open spec fn burn_post(
    pre: Bridge,
    post: Bridge,
    sender: Seq<char>,
    from: String,
    amount: u128,
    payload: Option<SwapRequest>,
    r: HandleOutcome,
) -> bool {
    if sender != pre.config.constants.snip20.address@ {
        refused(pre, post, r, ContractError::NotTokenContract)
    } else if amount < pre.config.min_swap {
        refused(pre, post, r, ContractError::BelowMinimum { minimum: pre.config.min_swap })
    } else if payload is None {
        refused(pre, post, r, ContractError::InvalidPayload)
    } else if pre.swaps.swaps.len() > u32::MAX {
        refused(pre, post, r, ContractError::LedgerFull)
    } else {
        &&& succeeded(
            r,
            HandleResult::Receive {
                status: ResponseStatus::Success,
                nonce: pre.swaps.swaps.len() as u32,
            },
            seq![OutboundMsg::Burn { amount, token: pre.config.constants.snip20 }],
        )
        &&& post.config == pre.config
        &&& post.proofs == pre.proofs
        &&& post.swaps.swaps@ == pre.swaps.swaps@.push(swap_record(pre, from, amount, payload->0))
        &&& post.viewing_keys == pre.viewing_keys
    }
}

pub open spec fn set_minters_post(
    pre: Bridge,
    post: Bridge,
    sender: Seq<char>,
    minters: Vec<String>,
    r: HandleOutcome,
) -> bool {
    if !pre.config.is_admin_spec(sender) {
        refused(pre, post, r, ContractError::NotAdmin)
    } else {
        &&& succeeded(r, HandleResult::SetMinters { status: ResponseStatus::Success }, seq![])
        &&& with_config(pre, post, ConfigStore { minters, ..pre.config })
    }
}

pub open spec fn set_status_post(
    pre: Bridge,
    post: Bridge,
    sender: Seq<char>,
    level: ContractStatusLevel,
    r: HandleOutcome,
) -> bool {
    if !pre.config.is_admin_spec(sender) {
        refused(pre, post, r, ContractError::NotAdmin)
    } else {
        &&& succeeded(r, HandleResult::SetContractStatus { status: ResponseStatus::Success }, seq![])
        &&& with_config(pre, post, ConfigStore { status: level, ..pre.config })
    }
}

/// What a command does: while paused every command but the status switch is
/// refused before any other check; otherwise each command does what its own
/// predicate says.
pub open spec fn handle_post(
    pre: Bridge,
    post: Bridge,
    sender: Seq<char>,
    msg: HandleMsg,
    r: HandleOutcome,
) -> bool {
    if pre.config.status == ContractStatusLevel::Paused && !(msg is SetContractStatus) {
        refused(pre, post, r, ContractError::Paused)
    } else {
        match msg {
            HandleMsg::ChangeAdmin { address } => change_admin_post(pre, post, sender, address, r),
            HandleMsg::ChangeSecretMoneroContract { secret_monero } => change_contract_post(
                pre,
                post,
                sender,
                secret_monero,
                r,
            ),
            HandleMsg::SetViewingKey { key } => set_viewing_key_post(pre, post, sender, key, r),
            HandleMsg::MintSecretMonero { proof, recipient, amount } => mint_post(
                pre,
                post,
                sender,
                proof,
                recipient,
                amount,
                r,
            ),
            HandleMsg::Receive { from, sender: _, amount, msg } => burn_post(
                pre,
                post,
                sender,
                from,
                amount,
                msg,
                r,
            ),
            HandleMsg::SetMinters { minters } => set_minters_post(pre, post, sender, minters, r),
            HandleMsg::SetContractStatus { level } => set_status_post(pre, post, sender, level, r),
        }
    }
}

/// Whether `key` opens the private data of `address`.
pub open spec fn key_opens(b: Bridge, address: Seq<char>, key: Seq<char>) -> bool {
    b.viewing_keys.credential(address) == Some(key_digest(key))
}

/// What a read returns.
pub open spec fn query_post(b: Bridge, msg: QueryMsg, r: Result<QueryOutcome, ContractError>) -> bool {
    match msg {
        QueryMsg::Config => {
            &&& r matches Ok(QueryOutcome::Response(QueryResponse::Config { admin, minters, min_swap, secret_monero, status }))
            &&& admin == b.config.constants.admin
            &&& minters@ == b.config.minters@
            &&& min_swap == b.config.min_swap
            &&& secret_monero == b.config.constants.snip20
            &&& status == b.config.status
        },
        QueryMsg::SecretMoneroBalance { address, viewing_key } => {
            if !key_opens(b, address@, viewing_key@) {
                r == Ok::<QueryOutcome, ContractError>(QueryOutcome::Response(QueryResponse::ViewingKeyError))
            } else {
                r == Ok::<QueryOutcome, ContractError>(QueryOutcome::LookupBalance {
                    address,
                    key: b.config.constants.viewing_key,
                    token: b.config.constants.snip20,
                })
            }
        },
        QueryMsg::SwapDetails { address, viewing_key, nonce } => {
            if !key_opens(b, address@, viewing_key@) {
                r == Ok::<QueryOutcome, ContractError>(QueryOutcome::Response(QueryResponse::ViewingKeyError))
            } else if !(nonce < b.swaps.swaps.len() && b.swaps.swaps@[nonce as int].from_secret_address@ == address@) {
                r == Err::<QueryOutcome, ContractError>(ContractError::NotFound)
            } else {
                let sd = b.swaps.swaps@[nonce as int];
                r == Ok::<QueryOutcome, ContractError>(QueryOutcome::Response(QueryResponse::SwapDetails {
                    to_monero_address: sd.to_monero_address,
                    from_secret_address: sd.from_secret_address,
                    amount: sd.amount,
                }))
            }
        },
    }
}

/// A copy of a list of identities.
fn copy_identities(list: &Vec<String>) -> (r: Vec<String>)
    ensures
        r@ == list@,
{
    let mut r: Vec<String> = Vec::new();
    let mut i: usize = 0;
    while i < list.len()
        invariant
            i <= list.len(),
            r@ == list@.subrange(0, i as int),
        decreases list.len() - i,
    {
        r.push(list[i].clone());
        i = i + 1;
        assert(r@ =~= list@.subrange(0, i as int));
    }
    assert(list@.subrange(0, list.len() as int) =~= list@);
    r
}

/// Compares two digests without stopping at the first difference.
fn digests_match(a: &Vec<u8>, b: &Vec<u8>) -> (r: bool)
    ensures
        r == (a@ == b@),
{
    if a.len() != b.len() {
        return false;
    }
    let mut same = true;
    let mut i: usize = 0;
    while i < a.len()
        invariant
            a.len() == b.len(),
            i <= a.len(),
            same == (forall|j: int| 0 <= j < i ==> a@[j] == b@[j]),
        decreases a.len() - i,
    {
        if a[i] != b[i] {
            same = false;
        }
        i = i + 1;
    }
    if same {
        assert(a@ =~= b@);
    }
    same
}

impl Bridge {
    /// Whether the state invariant holds, e.g. of a state read back from storage.
    pub fn check_wf(&self) -> (r: bool)
        ensures
            r == self.wf(),
    {
        self.proofs.check_wf() && self.swaps.check_wf() && self.viewing_keys.check_wf()
    }

    /// Creates the bridge: the sender becomes admin, `bridge_minter` the only
    /// minter, the status is running and every ledger is empty. The token
    /// service is asked to register this contract and to take its credential.
    pub fn init(sender: &String, msg: InitMsg) -> (r: (Bridge, Vec<OutboundMsg>))
        ensures
            r.0.wf(),
            r.0.config.constants.admin == *sender,
            r.0.config.constants.snip20 == msg.secret_monero,
            r.0.config.constants.viewing_key == msg.viewing_key,
            r.0.config.constants.prng_seed@ == sha_256_of(msg.prng_seed@),
            r.0.config.minters@ == seq![msg.bridge_minter],
            r.0.config.status == ContractStatusLevel::Running,
            r.0.config.min_swap == msg.min_swap_amount,
            r.0.proofs.proofs@.len() == 0,
            r.0.swaps.swaps@.len() == 0,
            forall|who: Seq<char>| r.0.viewing_keys.credential(who) is None,
            r.1@ == seq![
                OutboundMsg::RegisterReceive { token: msg.secret_monero },
                OutboundMsg::SetViewingKey { key: msg.viewing_key, token: msg.secret_monero },
            ],
    {
        let seed = sha_256(msg.prng_seed.as_slice());
        let mut minters: Vec<String> = Vec::new();
        minters.push(msg.bridge_minter);
        let mut messages: Vec<OutboundMsg> = Vec::new();
        messages.push(OutboundMsg::RegisterReceive { token: msg.secret_monero.duplicate() });
        messages.push(
            OutboundMsg::SetViewingKey {
                key: msg.viewing_key.clone(),
                token: msg.secret_monero.duplicate(),
            },
        );
        let config = ConfigStore {
            constants: Constants {
                admin: sender.clone(),
                snip20: msg.secret_monero,
                viewing_key: msg.viewing_key,
                prng_seed: seed,
            },
            minters,
            status: ContractStatusLevel::Running,
            min_swap: msg.min_swap_amount,
        };
        let bridge = Bridge {
            config,
            proofs: MoneroProofsStore::init(),
            swaps: SwapDetailsStore::init(),
            viewing_keys: ViewingKeyStore::init(),
        };
        (bridge, messages)
    }

    fn auth_admin_access(&self, sender: &String) -> (r: Result<(), ContractError>)
        ensures
            r is Ok <==> self.config.is_admin_spec(sender@),
            r is Err ==> r == Err::<(), ContractError>(ContractError::NotAdmin),
    {
        if !self.config.is_admin(sender) {
            return Err(ContractError::NotAdmin);
        }
        Ok(())
    }

    fn change_admin(&mut self, sender: &String, address: String) -> (r: HandleOutcome)
        requires
            old(self).wf(),
        ensures
            final(self).wf(),
            change_admin_post(*old(self), *final(self), sender@, address, r),
    {
        if let Err(e) = self.auth_admin_access(sender) {
            return Err(e);
        }
        self.config.constants.admin = address;
        Ok(HandleResponse {
            messages: Vec::new(),
            data: HandleResult::ChangeAdmin { status: ResponseStatus::Success },
        })
    }

    fn change_sxmr_contract(&mut self, sender: &String, new_contract: Snip20) -> (r: HandleOutcome)
        requires
            old(self).wf(),
        ensures
            final(self).wf(),
            change_contract_post(*old(self), *final(self), sender@, new_contract, r),
    {
        if let Err(e) = self.auth_admin_access(sender) {
            return Err(e);
        }
        let mut messages: Vec<OutboundMsg> = Vec::new();
        messages.push(OutboundMsg::DeregisterReceive { token: self.config.constants.snip20.duplicate() });
        messages.push(OutboundMsg::RegisterReceive { token: new_contract.duplicate() });
        messages.push(
            OutboundMsg::SetViewingKey {
                key: self.config.constants.viewing_key.clone(),
                token: new_contract.duplicate(),
            },
        );
        assert(messages@ =~= seq![
            OutboundMsg::DeregisterReceive { token: old(self).config.constants.snip20 },
            OutboundMsg::RegisterReceive { token: new_contract },
            OutboundMsg::SetViewingKey { key: old(self).config.constants.viewing_key, token: new_contract },
        ]);
        self.config.constants.snip20 = new_contract;
        Ok(HandleResponse {
            messages,
            data: HandleResult::ChangeSecretMoneroContract { status: ResponseStatus::Success },
        })
    }

    /// The admin's own credential with the token service is replaced, and the
    /// token service is told of it.
    fn set_contract_vk(&mut self, key: String) -> (r: HandleOutcome)
        requires
            old(self).wf(),
        ensures
            final(self).wf(),
            succeeded(
                r,
                HandleResult::SetViewingKey { status: ResponseStatus::Success },
                seq![OutboundMsg::SetViewingKey { key, token: old(self).config.constants.snip20 }],
            ),
            with_constants(*old(self), *final(self), Constants { viewing_key: key, ..old(self).config.constants }),
    {
        let mut messages: Vec<OutboundMsg> = Vec::new();
        messages.push(
            OutboundMsg::SetViewingKey { key: key.clone(), token: self.config.constants.snip20.duplicate() },
        );
        self.config.constants.viewing_key = key;
        Ok(HandleResponse {
            messages,
            data: HandleResult::SetViewingKey { status: ResponseStatus::Success },
        })
    }

    fn set_vk(&mut self, sender: &String, key: String) -> (r: HandleOutcome)
        requires
            old(self).wf(),
        ensures
            final(self).wf(),
            set_viewing_key_post(*old(self), *final(self), sender@, key, r),
    {
        if self.config.is_admin(sender) {
            return self.set_contract_vk(key);
        }
        let digest = hash_viewing_key(key.as_str());
        self.viewing_keys.set_viewing_key(sender, digest);
        Ok(HandleResponse {
            messages: Vec::new(),
            data: HandleResult::SetViewingKey { status: ResponseStatus::Success },
        })
    }

    fn set_minters(&mut self, sender: &String, minters: Vec<String>) -> (r: HandleOutcome)
        requires
            old(self).wf(),
        ensures
            final(self).wf(),
            set_minters_post(*old(self), *final(self), sender@, minters, r),
    {
        if let Err(e) = self.auth_admin_access(sender) {
            return Err(e);
        }
        self.config.set_minters(minters);
        Ok(HandleResponse {
            messages: Vec::new(),
            data: HandleResult::SetMinters { status: ResponseStatus::Success },
        })
    }

    fn set_contract_status(&mut self, sender: &String, level: ContractStatusLevel) -> (r: HandleOutcome)
        requires
            old(self).wf(),
        ensures
            final(self).wf(),
            set_status_post(*old(self), *final(self), sender@, level, r),
    {
        if let Err(e) = self.auth_admin_access(sender) {
            return Err(e);
        }
        self.config.set_contract_status(level);
        Ok(HandleResponse {
            messages: Vec::new(),
            data: HandleResult::SetContractStatus { status: ResponseStatus::Success },
        })
    }

    /// A proof is valid when its transaction id was never consumed.
    fn is_valid_proof(&self, tx_id: &String) -> (r: bool)
        requires
            self.wf(),
        ensures
            r == !tx_id_used(self.proofs.proofs@, tx_id@),
    {
        !self.proofs.contains(tx_id)
    }

    fn auth_mint(&self, sender: &String) -> (r: Result<(), ContractError>)
        ensures
            r is Ok <==> listed(self.config.minters@, sender@),
            r is Err ==> r == Err::<(), ContractError>(ContractError::NotMinter),
    {
        if !self.config.is_minter(sender) {
            return Err(ContractError::NotMinter);
        }
        Ok(())
    }

    fn mint_sxmr(&mut self, sender: &String, amount: u128, proof: MoneroProof, recipient: String) -> (r: HandleOutcome)
        requires
            old(self).wf(),
        ensures
            final(self).wf(),
            mint_post(*old(self), *final(self), sender@, proof, recipient, amount, r),
    {
        if let Err(e) = self.auth_mint(sender) {
            return Err(e);
        }
        if !self.is_valid_proof(&proof.tx_id) {
            return Err(ContractError::ReplayedProof);
        }
        let token = self.config.constants().snip20.duplicate();
        self.proofs.save(proof);
        let mut messages: Vec<OutboundMsg> = Vec::new();
        messages.push(OutboundMsg::Mint { recipient, amount, token });
        Ok(HandleResponse {
            messages,
            data: HandleResult::MintSecretMonero { status: ResponseStatus::Success },
        })
    }

    fn auth_burn(&self, sender: &String) -> (r: Result<(), ContractError>)
        ensures
            r is Ok <==> sender@ == self.config.constants.snip20.address@,
            r is Err ==> r == Err::<(), ContractError>(ContractError::NotTokenContract),
    {
        if *sender != self.config.constants().snip20.address {
            return Err(ContractError::NotTokenContract);
        }
        Ok(())
    }

    fn burn_sxmr(
        &mut self,
        sender: &String,
        from: String,
        amount: u128,
        payload: Option<SwapRequest>,
    ) -> (r: HandleOutcome)
        requires
            old(self).wf(),
        ensures
            final(self).wf(),
            burn_post(*old(self), *final(self), sender@, from, amount, payload, r),
    {
        if let Err(e) = self.auth_burn(sender) {
            return Err(e);
        }
        let minimum = self.config.min_swap_amount();
        if amount < minimum {
            return Err(ContractError::BelowMinimum { minimum });
        }
        let req = match payload {
            Some(req) => req,
            None => {
                return Err(ContractError::InvalidPayload);
            },
        };
        if self.swaps.len() > 4294967295usize {
            return Err(ContractError::LedgerFull);
        }
        let token = self.config.constants().snip20.duplicate();
        let sd = SwapDetails {
            to_monero_address: req.to_monero_address,
            from_secret_address: from,
            amount,
            nonce: 0,
        };
        let nonce = self.swaps.save(sd);
        let mut messages: Vec<OutboundMsg> = Vec::new();
        messages.push(OutboundMsg::Burn { amount, token });
        Ok(HandleResponse {
            messages,
            data: HandleResult::Receive { status: ResponseStatus::Success, nonce },
        })
    }

    /// Runs one command from `sender`.
    pub fn handle(&mut self, sender: &String, msg: HandleMsg) -> (r: HandleOutcome)
        requires
            old(self).wf(),
        ensures
            final(self).wf(),
            handle_post(*old(self), *final(self), sender@, msg, r),
    {
        if self.config.contract_status() == ContractStatusLevel::Paused {
            return match msg {
                HandleMsg::SetContractStatus { level } => self.set_contract_status(sender, level),
                _ => Err(ContractError::Paused),
            };
        }
        match msg {
            HandleMsg::ChangeAdmin { address } => self.change_admin(sender, address),
            HandleMsg::ChangeSecretMoneroContract { secret_monero } => self.change_sxmr_contract(
                sender,
                secret_monero,
            ),
            HandleMsg::SetViewingKey { key } => self.set_vk(sender, key),
            HandleMsg::MintSecretMonero { proof, recipient, amount } => self.mint_sxmr(
                sender,
                amount,
                proof,
                recipient,
            ),
            HandleMsg::Receive { from, sender: _, amount, msg } => self.burn_sxmr(
                sender,
                from,
                amount,
                msg,
            ),
            HandleMsg::SetMinters { minters } => self.set_minters(sender, minters),
            HandleMsg::SetContractStatus { level } => self.set_contract_status(sender, level),
        }
    }

    /// Whether `key` is the viewing key registered for `address`. An identity
    /// without a key and a wrong key give the same answer.
    pub fn auth_vk_access(&self, address: &String, key: &String) -> (r: bool)
        requires
            self.wf(),
        ensures
            r == key_opens(*self, address@, key@),
    {
        let supplied = hash_viewing_key(key.as_str());
        match self.viewing_keys.read_viewing_key(address) {
            Some(expected) => digests_match(expected, &supplied),
            None => false,
        }
    }

    fn query_config(&self) -> (r: QueryResponse)
        ensures
            r matches QueryResponse::Config { admin, minters, min_swap, secret_monero, status } && admin
                == self.config.constants.admin && minters@ == self.config.minters@ && min_swap
                == self.config.min_swap && secret_monero == self.config.constants.snip20 && status
                == self.config.status,
    {
        let consts = self.config.constants();
        QueryResponse::Config {
            admin: consts.admin.clone(),
            minters: copy_identities(self.config.minters()),
            min_swap: self.config.min_swap_amount(),
            secret_monero: consts.snip20.duplicate(),
            status: self.config.contract_status(),
        }
    }

    fn query_swap_details(&self, address: String, key: String, nonce: u32) -> (r: Result<QueryOutcome, ContractError>)
        requires
            self.wf(),
        ensures
            query_post(*self, QueryMsg::SwapDetails { address, viewing_key: key, nonce }, r),
    {
        if !self.auth_vk_access(&address, &key) {
            return Ok(QueryOutcome::Response(QueryResponse::ViewingKeyError));
        }
        match self.swaps.fetch_swap_details(&address, nonce) {
            Some(sd) => Ok(QueryOutcome::Response(QueryResponse::SwapDetails {
                to_monero_address: sd.to_monero_address.clone(),
                from_secret_address: sd.from_secret_address.clone(),
                amount: sd.amount,
            })),
            None => Err(ContractError::NotFound),
        }
    }

    fn query_sxmr_balance(&self, address: String, key: String) -> (r: Result<QueryOutcome, ContractError>)
        requires
            self.wf(),
        ensures
            query_post(*self, QueryMsg::SecretMoneroBalance { address, viewing_key: key }, r),
    {
        if !self.auth_vk_access(&address, &key) {
            return Ok(QueryOutcome::Response(QueryResponse::ViewingKeyError));
        }
        let consts = self.config.constants();
        Ok(QueryOutcome::LookupBalance {
            address,
            key: consts.viewing_key.clone(),
            token: consts.snip20.duplicate(),
        })
    }

    /// Answers one read.
    pub fn query(&self, msg: QueryMsg) -> (r: Result<QueryOutcome, ContractError>)
        requires
            self.wf(),
        ensures
            query_post(*self, msg, r),
    {
        match msg {
            QueryMsg::Config => Ok(QueryOutcome::Response(self.query_config())),
            QueryMsg::SecretMoneroBalance { address, viewing_key } => self.query_sxmr_balance(
                address,
                viewing_key,
            ),
            QueryMsg::SwapDetails { address, viewing_key, nonce } => self.query_swap_details(
                address,
                viewing_key,
                nonce,
            ),
        }
    }
}

} // verus!
