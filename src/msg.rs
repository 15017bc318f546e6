use vstd::prelude::*;

use crate::state::MoneroProof;

verus! {

/// Global switch of the contract.
#[derive(Clone, Copy, Debug, PartialEq, Eq, Structural)]
pub enum ContractStatusLevel {
    Running,
    Paused,
}

/// Outcome tag carried by every command result.
#[derive(Clone, Copy, Debug, PartialEq, Eq, Structural)]
pub enum ResponseStatus {
    Success,
    Failure,
}

/// Reference to the token service: its address and the hash of its code.
#[derive(Debug)]
pub struct Snip20 {
    pub address: String,
    pub contract_hash: String,
}

impl Snip20 {
    pub fn duplicate(&self) -> (r: Snip20)
        ensures
            r == *self,
    {
        Snip20 { address: self.address.clone(), contract_hash: self.contract_hash.clone() }
    }
}

/// Parameters of the one-time initialization.
#[derive(Debug)]
pub struct InitMsg {
    pub prng_seed: Vec<u8>,
    pub secret_monero: Snip20,
    pub viewing_key: String,
    pub min_swap_amount: u128,
    pub bridge_minter: String,
}

/// What the payload of a burn notification carries: where the funds go on the
/// external chain.
#[derive(Debug)]
pub struct SwapRequest {
    pub to_monero_address: String,
}

/// Commands accepted from callers.
#[derive(Debug)]
pub enum HandleMsg {
    ChangeAdmin { address: String },
    ChangeSecretMoneroContract { secret_monero: Snip20 },
    SetViewingKey { key: String },
    MintSecretMonero { proof: MoneroProof, recipient: String, amount: u128 },
    /// Burn notification from the token service. `msg` is the decoded payload,
    /// `None` where the payload could not be decoded.
    Receive { from: String, sender: String, amount: u128, msg: Option<SwapRequest> },
    SetMinters { minters: Vec<String> },
    SetContractStatus { level: ContractStatusLevel },
}

/// Status record returned by a successful command, tagged by the command.
#[derive(Clone, Copy, Debug, PartialEq, Eq, Structural)]
pub enum HandleResult {
    ChangeAdmin { status: ResponseStatus },
    ChangeSecretMoneroContract { status: ResponseStatus },
    SetViewingKey { status: ResponseStatus },
    MintSecretMonero { status: ResponseStatus },
    Receive { status: ResponseStatus, nonce: u32 },
    SetContractStatus { status: ResponseStatus },
    SetMinters { status: ResponseStatus },
}

/// Instructions addressed to the token service.
#[derive(Debug)]
pub enum OutboundMsg {
    /// Announce this contract as a recipient of burn notifications.
    RegisterReceive { token: Snip20 },
    /// Revoke that announcement.
    DeregisterReceive { token: Snip20 },
    /// Establish this contract's own read credential with the token service.
    SetViewingKey { key: String, token: Snip20 },
    Mint { recipient: String, amount: u128, token: Snip20 },
    Burn { amount: u128, token: Snip20 },
}

/// Result of a successful command: the instructions to send, and the status record.
#[derive(Debug)]
pub struct HandleResponse {
    pub messages: Vec<OutboundMsg>,
    pub data: HandleResult,
}

/// Why a command was refused. Any refusal leaves the state as it was.
#[derive(Clone, Copy, Debug, PartialEq, Eq, Structural)]
pub enum ContractError {
    /// The contract is paused and the command is not the status switch.
    Paused,
    /// An admin command from an identity other than the admin.
    NotAdmin,
    /// A mint from an identity outside the minter set.
    NotMinter,
    /// A burn notification from an identity other than the token service.
    NotTokenContract,
    /// A mint proof whose transaction id was consumed before.
    ReplayedProof,
    /// A burn below the minimum swap amount.
    BelowMinimum { minimum: u128 },
    /// A burn notification whose payload could not be decoded.
    InvalidPayload,
    /// Every nonce of the swap ledger is taken.
    LedgerFull,
    /// No swap record with that nonce belongs to the queried identity.
    NotFound,
}

/// The byte under which a status level is persisted.
pub open spec fn status_byte(level: ContractStatusLevel) -> u8 {
    match level {
        ContractStatusLevel::Running => 0,
        ContractStatusLevel::Paused => 1,
    }
}

pub fn status_level_to_u8(status_level: ContractStatusLevel) -> (r: u8)
    ensures
        r == status_byte(status_level),
{
    match status_level {
        ContractStatusLevel::Running => 0,
        ContractStatusLevel::Paused => 1,
    }
}

/// Decodes a persisted status byte; `None` for a byte that no level encodes.
pub fn u8_to_status_level(status_level: u8) -> (r: Option<ContractStatusLevel>)
    ensures
        r matches Some(l) ==> status_byte(l) == status_level,
        r is None <==> status_level > 1,
{
    match status_level {
        0 => Some(ContractStatusLevel::Running),
        1 => Some(ContractStatusLevel::Paused),
        _ => None,
    }
}

/// Number of filler bytes that bring `len` up to a multiple of `block_size`.
pub open spec fn pad_len(block_size: nat, len: nat) -> nat
    recommends
        block_size > 0,
{
    if len % block_size == 0 {
        0
    } else {
        (block_size - len % block_size) as nat
    }
}

/// Pads `message` with spaces up to the next multiple of `block_size`.
pub fn space_pad(block_size: usize, message: &mut Vec<u8>)
    requires
        block_size > 0,
        old(message).len() + block_size <= usize::MAX,
    ensures
        final(message)@ == old(message)@ + Seq::new(
            pad_len(block_size as nat, old(message).len() as nat),
            |i: int| 32u8,
        ),
        final(message).len() as int % (block_size as int) == 0,
{
    let len = message.len();
    let surplus = len % block_size;
    if surplus == 0 {
        assert(message@ =~= old(message)@ + Seq::new(0, |i: int| 32u8));
        return;
    }
    let missing = block_size - surplus;
    let ghost start = message@;
    let mut k: usize = 0;
    while k < missing
        invariant
            k <= missing,
            missing == block_size - surplus,
            surplus == len % block_size,
            len == start.len(),
            len + block_size <= usize::MAX,
            message@ == start + Seq::new(k as nat, |i: int| 32u8),
        decreases missing - k,
    {
        message.push(32u8);
        k = k + 1;
        assert(message@ =~= start + Seq::new(k as nat, |i: int| 32u8));
    }
    assert((len + missing) as int % (block_size as int) == 0) by (nonlinear_arith)
        requires
            surplus == len % block_size,
            missing == block_size - surplus,
            block_size > 0,
            surplus != 0,
    {
        assert(len == (len / block_size) * block_size + surplus);
        assert(len + missing == (len / block_size + 1) * block_size);
    }
}

} // verus!
