use vstd::prelude::*;

use crate::contract::{handle_post, key_opens, query_post, Bridge, HandleOutcome};
use crate::crypto::key_digest;
use crate::msg::{ContractError, ContractStatusLevel, HandleMsg, HandleResult, ResponseStatus, SwapRequest};
use crate::query_messages::{QueryMsg, QueryOutcome, QueryResponse};
use crate::state::{listed, tx_id_used};

verus! {

/// The transaction id that a command presents as mint proof, if it is a mint.
pub open spec fn minted_tx_id(msg: HandleMsg) -> Option<Seq<char>> {
    match msg {
        HandleMsg::MintSecretMonero { proof, .. } => Some(proof.tx_id@),
        _ => None,
    }
}

/// The proof ledger only grows: no command removes or alters a consumed proof.
pub proof fn lemma_proofs_append_only(
    pre: Bridge,
    post: Bridge,
    sender: Seq<char>,
    msg: HandleMsg,
    r: HandleOutcome,
)
    requires
        handle_post(pre, post, sender, msg, r),
    ensures
        pre.proofs.proofs@ == post.proofs.proofs@.subrange(0, pre.proofs.proofs@.len() as int),
        forall|t: Seq<char>| tx_id_used(pre.proofs.proofs@, t) ==> tx_id_used(post.proofs.proofs@, t),
{
    assert(pre.proofs.proofs@ =~= post.proofs.proofs@.subrange(0, pre.proofs.proofs@.len() as int));
    assert forall|t: Seq<char>| tx_id_used(pre.proofs.proofs@, t) implies tx_id_used(
        post.proofs.proofs@,
        t,
    ) by {
        let i = choose|i: int| 0 <= i < pre.proofs.proofs@.len() && (#[trigger] pre.proofs.proofs@[i]).tx_id@ == t;
        assert(post.proofs.proofs@[i] == pre.proofs.proofs@[i]);
    }
}

/// A successful mint consumes its proof.
pub proof fn lemma_mint_consumes_proof(
    pre: Bridge,
    post: Bridge,
    sender: Seq<char>,
    msg: HandleMsg,
    r: HandleOutcome,
)
    requires
        handle_post(pre, post, sender, msg, r),
        msg is MintSecretMonero,
        r is Ok,
    ensures
        tx_id_used(post.proofs.proofs@, minted_tx_id(msg)->0),
{
    let n = pre.proofs.proofs@.len() as int;
    assert(post.proofs.proofs@[n].tx_id@ == minted_tx_id(msg)->0);
}

/// A mint that presents a consumed transaction id never succeeds and never
/// emits a mint instruction: the state stays as it was, and while the contract
/// runs a minter gets the replay error.
pub proof fn lemma_replay_refused(
    pre: Bridge,
    post: Bridge,
    sender: Seq<char>,
    msg: HandleMsg,
    r: HandleOutcome,
)
    requires
        handle_post(pre, post, sender, msg, r),
        msg is MintSecretMonero,
        tx_id_used(pre.proofs.proofs@, minted_tx_id(msg)->0),
    ensures
        r is Err,
        post == pre,
        pre.config.status == ContractStatusLevel::Running && listed(pre.config.minters@, sender)
            ==> r == Err::<crate::msg::HandleResponse, ContractError>(ContractError::ReplayedProof),
{
}

/// Submitting one proof twice succeeds at most once: after a successful mint,
/// a second mint with the same transaction id, from any caller and with any
/// recipient and amount, is refused and changes nothing.
pub proof fn lemma_proof_used_once(
    s0: Bridge,
    s1: Bridge,
    s2: Bridge,
    sender1: Seq<char>,
    sender2: Seq<char>,
    m1: HandleMsg,
    m2: HandleMsg,
    r1: HandleOutcome,
    r2: HandleOutcome,
)
    requires
        handle_post(s0, s1, sender1, m1, r1),
        handle_post(s1, s2, sender2, m2, r2),
        m1 is MintSecretMonero,
        m2 is MintSecretMonero,
        minted_tx_id(m1) == minted_tx_id(m2),
        r1 is Ok,
    ensures
        r2 is Err,
        s2 == s1,
        listed(s1.config.minters@, sender2) && s1.config.status == ContractStatusLevel::Running
            ==> r2 == Err::<crate::msg::HandleResponse, ContractError>(ContractError::ReplayedProof),
{
    lemma_mint_consumes_proof(s0, s1, sender1, m1, r1);
    lemma_replay_refused(s1, s2, sender2, m2, r2);
}

/// The premises of a run of commands: each state follows from the one before
/// by the command at the same position.
pub open spec fn command_run(
    states: Seq<Bridge>,
    senders: Seq<Seq<char>>,
    msgs: Seq<HandleMsg>,
    results: Seq<HandleOutcome>,
) -> bool {
    &&& states.len() == msgs.len() + 1
    &&& senders.len() == msgs.len()
    &&& results.len() == msgs.len()
    &&& forall|k: int|
        0 <= k < msgs.len() ==> handle_post(
            states[k],
            states[k + 1],
            senders[k],
            msgs[k],
            #[trigger] results[k],
        )
}

proof fn lemma_used_stays_used(
    states: Seq<Bridge>,
    senders: Seq<Seq<char>>,
    msgs: Seq<HandleMsg>,
    results: Seq<HandleOutcome>,
    tx_id: Seq<char>,
    from: int,
    to: int,
)
    requires
        command_run(states, senders, msgs, results),
        0 <= from <= to <= msgs.len(),
        tx_id_used(states[from].proofs.proofs@, tx_id),
    ensures
        tx_id_used(states[to].proofs.proofs@, tx_id),
    decreases to - from,
{
    if from < to {
        assert(handle_post(states[from], states[from + 1], senders[from], msgs[from], results[from]));
        lemma_proofs_append_only(states[from], states[from + 1], senders[from], msgs[from], results[from]);
        lemma_used_stays_used(states, senders, msgs, results, tx_id, from + 1, to);
    }
}

/// Over any run of commands, a transaction id is minted at most once: once a
/// mint with it succeeded, every later mint that presents it fails, whatever
/// was done in between.
pub proof fn lemma_mint_at_most_once_in_run(
    states: Seq<Bridge>,
    senders: Seq<Seq<char>>,
    msgs: Seq<HandleMsg>,
    results: Seq<HandleOutcome>,
    i: int,
    j: int,
)
    requires
        command_run(states, senders, msgs, results),
        0 <= i < j < msgs.len(),
        msgs[i] is MintSecretMonero,
        msgs[j] is MintSecretMonero,
        minted_tx_id(msgs[i]) == minted_tx_id(msgs[j]),
        results[i] is Ok,
    ensures
        results[j] is Err,
        states[j + 1] == states[j],
{
    assert(handle_post(states[i], states[i + 1], senders[i], msgs[i], results[i]));
    lemma_mint_consumes_proof(states[i], states[i + 1], senders[i], msgs[i], results[i]);
    lemma_used_stays_used(states, senders, msgs, results, minted_tx_id(msgs[i])->0, i + 1, j);
    assert(handle_post(states[j], states[j + 1], senders[j], msgs[j], results[j]));
    lemma_replay_refused(states[j], states[j + 1], senders[j], msgs[j], results[j]);
}

/// The nonce that a successful burn notification returns, if `r` is one.
pub open spec fn returned_nonce(r: HandleOutcome) -> Option<u32> {
    match r {
        Ok(resp) => match resp.data {
            HandleResult::Receive { nonce, .. } => Some(nonce),
            _ => None,
        },
        Err(_) => None,
    }
}

/// The premises of a run of `msgs.len()` successful burn notifications.
pub open spec fn burn_run(
    states: Seq<Bridge>,
    senders: Seq<Seq<char>>,
    msgs: Seq<HandleMsg>,
    results: Seq<HandleOutcome>,
) -> bool {
    &&& command_run(states, senders, msgs, results)
    &&& forall|k: int| 0 <= k < msgs.len() ==> (#[trigger] msgs[k]) is Receive
    &&& forall|k: int| 0 <= k < msgs.len() ==> (#[trigger] results[k]) is Ok
}

proof fn lemma_nonces_upto(
    states: Seq<Bridge>,
    senders: Seq<Seq<char>>,
    msgs: Seq<HandleMsg>,
    results: Seq<HandleOutcome>,
    n: int,
)
    requires
        burn_run(states, senders, msgs, results),
        states[0].swaps.swaps.len() == 0,
        0 <= n <= msgs.len(),
    ensures
        states[n].swaps.swaps.len() == n,
        forall|j: int| 0 <= j < n ==> returned_nonce(#[trigger] results[j]) == Some(j as u32),
        forall|j: int| 0 <= j < n ==> #[trigger] results[j] is Ok && j <= u32::MAX,
    decreases n,
{
    if n > 0 {
        let k = n - 1;
        lemma_nonces_upto(states, senders, msgs, results, k);
        assert(handle_post(states[k], states[k + 1], senders[k], msgs[k], results[k]));
        assert(msgs[k] is Receive);
        assert(results[k] is Ok);
    }
}

/// Over a run of successful burn notifications that starts from an empty swap
/// ledger, the k-th notification gets nonce k: nonces are 0, 1, ..., N-1 in
/// call order, without gaps or repeats.
pub proof fn lemma_nonces_dense(
    states: Seq<Bridge>,
    senders: Seq<Seq<char>>,
    msgs: Seq<HandleMsg>,
    results: Seq<HandleOutcome>,
)
    requires
        burn_run(states, senders, msgs, results),
        states[0].swaps.swaps.len() == 0,
    ensures
        forall|k: int| 0 <= k < msgs.len() ==> returned_nonce(#[trigger] results[k]) == Some(k as u32),
        forall|k: int| 0 <= k < msgs.len() ==> #[trigger] results[k] is Ok && k <= u32::MAX,
        states[msgs.len() as int].swaps.swaps.len() == msgs.len(),
{
    lemma_nonces_upto(states, senders, msgs, results, msgs.len() as int);
}

/// A key other than the one registered for `address` never opens its swap
/// records: the answer is the generic viewing-key error.
pub proof fn lemma_foreign_key_refused(
    b: Bridge,
    address: String,
    key: String,
    nonce: u32,
    r: Result<QueryOutcome, ContractError>,
)
    requires
        b.viewing_keys.credential(address@) is Some,
        b.viewing_keys.credential(address@) != Some(key_digest(key@)),
        query_post(b, QueryMsg::SwapDetails { address, viewing_key: key, nonce }, r),
    ensures
        r == Ok::<QueryOutcome, ContractError>(QueryOutcome::Response(QueryResponse::ViewingKeyError)),
{
}

/// With the right key, a nonce whose record belongs to another identity reads
/// as absent; and whatever a swap query returns belongs to the queried identity.
pub proof fn lemma_other_owner_not_found(
    b: Bridge,
    address: String,
    key: String,
    nonce: u32,
    r: Result<QueryOutcome, ContractError>,
)
    requires
        query_post(b, QueryMsg::SwapDetails { address, viewing_key: key, nonce }, r),
    ensures
        key_opens(b, address@, key@) && nonce < b.swaps.swaps.len()
            && b.swaps.swaps@[nonce as int].from_secret_address@ != address@
            ==> r == Err::<QueryOutcome, ContractError>(ContractError::NotFound),
        r matches Ok(QueryOutcome::Response(QueryResponse::SwapDetails { from_secret_address, .. }))
            ==> from_secret_address@ == address@,
{
}

/// While paused every command but the status switch fails with the pause error
/// and changes nothing.
pub proof fn lemma_paused_refuses(
    pre: Bridge,
    post: Bridge,
    sender: Seq<char>,
    msg: HandleMsg,
    r: HandleOutcome,
)
    requires
        handle_post(pre, post, sender, msg, r),
        pre.config.status == ContractStatusLevel::Paused,
        !(msg is SetContractStatus),
    ensures
        r == Err::<crate::msg::HandleResponse, ContractError>(ContractError::Paused),
        post == pre,
{
}

/// The admin's status switch succeeds whatever the current status.
pub proof fn lemma_admin_switches_status(
    pre: Bridge,
    post: Bridge,
    sender: Seq<char>,
    level: ContractStatusLevel,
    r: HandleOutcome,
)
    requires
        handle_post(pre, post, sender, HandleMsg::SetContractStatus { level }, r),
        pre.config.is_admin_spec(sender),
    ensures
        r matches Ok(resp) && resp.data == (HandleResult::SetContractStatus {
            status: ResponseStatus::Success,
        }),
        post.config.status == level,
{
}

/// The swap minimum is inclusive: a burn of exactly the minimum is accepted
/// and one of a unit less is refused with the threshold error.
pub proof fn lemma_minimum_inclusive(
    pre: Bridge,
    post_at: Bridge,
    post_below: Bridge,
    sender: Seq<char>,
    from: String,
    notifier: String,
    req_at: SwapRequest,
    req_below: SwapRequest,
    r_at: HandleOutcome,
    r_below: HandleOutcome,
)
    requires
        pre.config.status == ContractStatusLevel::Running,
        sender == pre.config.constants.snip20.address@,
        pre.swaps.swaps.len() <= u32::MAX,
        handle_post(
            pre,
            post_at,
            sender,
            HandleMsg::Receive { from, sender: notifier, amount: pre.config.min_swap, msg: Some(req_at) },
            r_at,
        ),
        pre.config.min_swap > 0 ==> handle_post(
            pre,
            post_below,
            sender,
            HandleMsg::Receive {
                from,
                sender: notifier,
                amount: (pre.config.min_swap - 1) as u128,
                msg: Some(req_below),
            },
            r_below,
        ),
    ensures
        r_at is Ok,
        pre.config.min_swap > 0 ==> r_below == Err::<crate::msg::HandleResponse, ContractError>(
            ContractError::BelowMinimum { minimum: pre.config.min_swap },
        ),
{
}

} // verus!
