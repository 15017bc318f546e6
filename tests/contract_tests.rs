use bridge::contract::Bridge;
use bridge::msg::{
    ContractError, ContractStatusLevel, HandleMsg, HandleResult, InitMsg, OutboundMsg,
    ResponseStatus, Snip20, SwapRequest,
};
use bridge::query_messages::{QueryMsg, QueryOutcome, QueryResponse};
use bridge::state::{MoneroProof, SwapDetails};

fn s(x: &str) -> String {
    x.to_string()
}

fn token() -> Snip20 {
    Snip20 { address: s("tokenAddr"), contract_hash: s("tokenHash") }
}

fn init_msg(minter: &str) -> InitMsg {
    InitMsg {
        prng_seed: b"seed".to_vec(),
        secret_monero: token(),
        viewing_key: s("vk"),
        min_swap_amount: 10000,
        bridge_minter: s(minter),
    }
}

fn init_helper(msg: InitMsg, admin: &str) -> Bridge {
    Bridge::init(&s(admin), msg).0
}

fn make_proof(tx_id: &str) -> MoneroProof {
    MoneroProof { tx_id: s(tx_id), tx_key: s("moneroTxKey"), address: s("moneroBridgeMultiSig") }
}

fn mint(tx_id: &str, recipient: &str, amount: u128) -> HandleMsg {
    HandleMsg::MintSecretMonero { proof: make_proof(tx_id), recipient: s(recipient), amount }
}

fn burn(from: &str, amount: u128, dest: Option<&str>) -> HandleMsg {
    HandleMsg::Receive {
        from: s(from),
        sender: s(from),
        amount,
        msg: dest.map(|d| SwapRequest { to_monero_address: s(d) }),
    }
}

fn swap_query(address: &str, key: &str, nonce: u32) -> QueryMsg {
    QueryMsg::SwapDetails { address: s(address), viewing_key: s(key), nonce }
}

#[test]
fn test_init_sanity() {
    let msg = init_msg("bridgeMinter");
    let admin = "segfaultdoc";
    let (bridge, messages) = Bridge::init(&s(admin), msg);
    let constants = bridge.config.constants();
    assert_eq!(constants.admin, s(admin));
    assert_eq!(constants.snip20.contract_hash, s("tokenHash"));
    assert_eq!(constants.snip20.address, s("tokenAddr"));
    assert_eq!(constants.viewing_key, s("vk"));
    assert_eq!(constants.prng_seed, secret_toolkit::crypto::sha_256(b"seed").to_vec());
    assert_eq!(bridge.config.contract_status(), ContractStatusLevel::Running);
    assert_eq!(bridge.config.min_swap_amount(), 10000);
    assert_eq!(bridge.config.minters().len(), 1);
    assert_eq!(bridge.config.minters()[0], s("bridgeMinter"));
    assert_eq!(messages.len(), 2);
    assert!(matches!(&messages[0], OutboundMsg::RegisterReceive { token } if token.address == "tokenAddr"));
    assert!(matches!(&messages[1], OutboundMsg::SetViewingKey { key, .. } if key == "vk"));
}

#[test]
fn test_query_config() {
    let bridge = init_helper(init_msg("bridgeMinter"), "segfaultdoc");
    match bridge.query(QueryMsg::Config) {
        Ok(QueryOutcome::Response(QueryResponse::Config {
            admin,
            minters,
            min_swap,
            secret_monero,
            status,
        })) => {
            assert_eq!(admin, s("segfaultdoc"));
            assert_eq!(minters, vec![s("bridgeMinter")]);
            assert_eq!(min_swap, 10000);
            assert_eq!(secret_monero.address, s("tokenAddr"));
            assert_eq!(secret_monero.contract_hash, s("tokenHash"));
            assert_eq!(status, ContractStatusLevel::Running);
        }
        _ => panic!("unexpected"),
    }
}

#[test]
fn test_query_swap_details() {
    let mut bridge = init_helper(init_msg("bridgeMinter"), "admin");
    let user = "segfaultdoc";
    let vk = "my_vk";
    let result = bridge.handle(&s(user), HandleMsg::SetViewingKey { key: s(vk) });
    assert!(result.is_ok(), "SetViewingKey Failed: {:?}", result.err());

    let to_monero_address = "some_monero_addr";
    let amount: u128 = 10000000;
    let nonce = bridge.swaps.save(SwapDetails {
        to_monero_address: s(to_monero_address),
        from_secret_address: s(user),
        amount,
        nonce: 99,
    });
    assert_eq!(nonce, 0);

    match bridge.query(swap_query(user, vk, nonce)) {
        Ok(QueryOutcome::Response(QueryResponse::SwapDetails {
            to_monero_address: actual_xmr_address,
            from_secret_address,
            amount: actual_amount,
        })) => {
            assert_eq!(actual_xmr_address, s(to_monero_address));
            assert_eq!(from_secret_address, s(user));
            assert_eq!(actual_amount, amount);
        }
        other => panic!("unexpected: {:?}", other),
    }
}

#[test]
fn test_handle_mint_sxmr() {
    let bridge_minter = "bridgeMinter";
    let mut bridge = init_helper(init_msg(bridge_minter), "segfaultdoc");
    let msg = HandleMsg::MintSecretMonero {
        proof: make_proof("moneroTxID"),
        recipient: s("mySecretAddress"),
        amount: 1000000,
    };
    let result = bridge.handle(&s(bridge_minter), msg);
    assert!(result.is_ok(), "Mint failed: {:?}", result.as_ref().err());
    match result.unwrap().data {
        HandleResult::MintSecretMonero { status } => assert_eq!(status, ResponseStatus::Success),
        _ => panic!("unexpected"),
    }
}

#[test]
fn scenario_mint_replay_burn_and_read() {
    let mut bridge = init_helper(init_msg("M"), "A");
    let r = bridge.handle(&s("M"), mint("t1", "U", 500000)).unwrap();
    assert_eq!(r.data, HandleResult::MintSecretMonero { status: ResponseStatus::Success });
    assert_eq!(r.messages.len(), 1);
    match &r.messages[0] {
        OutboundMsg::Mint { recipient, amount, token } => {
            assert_eq!(recipient, "U");
            assert_eq!(*amount, 500000);
            assert_eq!(token.address, "tokenAddr");
        }
        other => panic!("unexpected: {:?}", other),
    }
    assert_eq!(bridge.proofs.proofs.len(), 1);
    assert_eq!(bridge.proofs.proofs[0].tx_id, "t1");

    let again = bridge.handle(&s("M"), mint("t1", "U", 500000));
    assert_eq!(again.err(), Some(ContractError::ReplayedProof));
    assert_eq!(bridge.proofs.proofs.len(), 1);

    let dest = "4AdBexampleDestination";
    let r = bridge.handle(&s("tokenAddr"), burn("U", 10000000, Some(dest))).unwrap();
    assert_eq!(r.data, HandleResult::Receive { status: ResponseStatus::Success, nonce: 0 });
    assert!(matches!(&r.messages[0], OutboundMsg::Burn { amount: 10000000, .. }));

    bridge.handle(&s("U"), HandleMsg::SetViewingKey { key: s("vk") }).unwrap();
    match bridge.query(swap_query("U", "vk", 0)) {
        Ok(QueryOutcome::Response(QueryResponse::SwapDetails {
            to_monero_address,
            from_secret_address,
            amount,
        })) => {
            assert_eq!(to_monero_address, dest);
            assert_eq!(from_secret_address, "U");
            assert_eq!(amount, 10000000);
        }
        other => panic!("unexpected: {:?}", other),
    }
    assert!(matches!(
        bridge.query(swap_query("U", "wrong", 0)),
        Ok(QueryOutcome::Response(QueryResponse::ViewingKeyError))
    ));
}

#[test]
fn replay_from_another_minter_is_refused() {
    let mut bridge = init_helper(init_msg("M"), "A");
    bridge.handle(&s("A"), HandleMsg::SetMinters { minters: vec![s("M"), s("N")] }).unwrap();
    bridge.handle(&s("M"), mint("t1", "U", 5)).unwrap();
    let again = bridge.handle(&s("N"), mint("t1", "V", 7));
    assert_eq!(again.err(), Some(ContractError::ReplayedProof));
    assert!(bridge.handle(&s("N"), mint("t2", "V", 7)).is_ok());
    assert_eq!(bridge.proofs.proofs.len(), 2);
}

#[test]
fn mint_by_non_minter_is_refused() {
    let mut bridge = init_helper(init_msg("M"), "A");
    assert_eq!(bridge.handle(&s("A"), mint("t1", "U", 5)).err(), Some(ContractError::NotMinter));
    assert_eq!(bridge.proofs.proofs.len(), 0);
}

#[test]
fn nonces_are_dense_in_call_order() {
    let mut bridge = init_helper(init_msg("M"), "A");
    for k in 0..5u32 {
        let r = bridge.handle(&s("tokenAddr"), burn("U", 20000 + k as u128, Some("dest"))).unwrap();
        assert_eq!(r.data, HandleResult::Receive { status: ResponseStatus::Success, nonce: k });
    }
    for (i, sd) in bridge.swaps.swaps.iter().enumerate() {
        assert_eq!(sd.nonce as usize, i);
        assert_eq!(sd.amount, 20000 + i as u128);
    }
}

#[test]
fn burn_records_notified_sender() {
    let mut bridge = init_helper(init_msg("M"), "A");
    let msg = HandleMsg::Receive {
        from: s("U"),
        sender: s("someoneElse"),
        amount: 10000,
        msg: Some(SwapRequest { to_monero_address: s("dest") }),
    };
    bridge.handle(&s("tokenAddr"), msg).unwrap();
    assert_eq!(bridge.swaps.swaps[0].from_secret_address, "U");
}

#[test]
fn burn_from_other_sender_is_refused() {
    let mut bridge = init_helper(init_msg("M"), "A");
    let r = bridge.handle(&s("U"), burn("U", 10000000, Some("dest")));
    assert_eq!(r.err(), Some(ContractError::NotTokenContract));
    assert_eq!(bridge.swaps.swaps.len(), 0);
}

#[test]
fn burn_minimum_is_inclusive() {
    let mut bridge = init_helper(init_msg("M"), "A");
    let below = bridge.handle(&s("tokenAddr"), burn("U", 9999, Some("dest")));
    assert_eq!(below.err(), Some(ContractError::BelowMinimum { minimum: 10000 }));
    assert_eq!(bridge.swaps.swaps.len(), 0);
    assert!(bridge.handle(&s("tokenAddr"), burn("U", 10000, Some("dest"))).is_ok());
    assert_eq!(bridge.swaps.swaps.len(), 1);
}

#[test]
fn burn_with_undecodable_payload_is_refused() {
    let mut bridge = init_helper(init_msg("M"), "A");
    let r = bridge.handle(&s("tokenAddr"), burn("U", 10000, None));
    assert_eq!(r.err(), Some(ContractError::InvalidPayload));
    assert_eq!(bridge.swaps.swaps.len(), 0);
}

#[test]
fn other_identity_key_is_refused() {
    let mut bridge = init_helper(init_msg("M"), "A");
    bridge.handle(&s("tokenAddr"), burn("alice", 10000, Some("dest"))).unwrap();
    bridge.handle(&s("alice"), HandleMsg::SetViewingKey { key: s("alice_key") }).unwrap();
    bridge.handle(&s("bob"), HandleMsg::SetViewingKey { key: s("bob_key") }).unwrap();
    assert!(matches!(
        bridge.query(swap_query("alice", "bob_key", 0)),
        Ok(QueryOutcome::Response(QueryResponse::ViewingKeyError))
    ));
}

#[test]
fn unset_and_wrong_key_look_alike() {
    let mut bridge = init_helper(init_msg("M"), "A");
    bridge.handle(&s("tokenAddr"), burn("alice", 10000, Some("dest"))).unwrap();
    let unset = bridge.query(swap_query("alice", "k", 0));
    bridge.handle(&s("alice"), HandleMsg::SetViewingKey { key: s("right") }).unwrap();
    let wrong = bridge.query(swap_query("alice", "k", 0));
    assert!(matches!(unset, Ok(QueryOutcome::Response(QueryResponse::ViewingKeyError))));
    assert!(matches!(wrong, Ok(QueryOutcome::Response(QueryResponse::ViewingKeyError))));
}

#[test]
fn viewing_key_can_be_replaced() {
    let mut bridge = init_helper(init_msg("M"), "A");
    bridge.handle(&s("tokenAddr"), burn("alice", 10000, Some("dest"))).unwrap();
    bridge.handle(&s("alice"), HandleMsg::SetViewingKey { key: s("first") }).unwrap();
    bridge.handle(&s("alice"), HandleMsg::SetViewingKey { key: s("second") }).unwrap();
    assert_eq!(bridge.viewing_keys.entries.len(), 1);
    assert!(matches!(
        bridge.query(swap_query("alice", "first", 0)),
        Ok(QueryOutcome::Response(QueryResponse::ViewingKeyError))
    ));
    assert!(matches!(
        bridge.query(swap_query("alice", "second", 0)),
        Ok(QueryOutcome::Response(QueryResponse::SwapDetails { .. }))
    ));
}

#[test]
fn nonce_of_other_owner_reads_as_absent() {
    let mut bridge = init_helper(init_msg("M"), "A");
    bridge.handle(&s("tokenAddr"), burn("alice", 10000, Some("dest"))).unwrap();
    bridge.handle(&s("bob"), HandleMsg::SetViewingKey { key: s("bob_key") }).unwrap();
    assert_eq!(bridge.query(swap_query("bob", "bob_key", 0)).err(), Some(ContractError::NotFound));
    assert_eq!(bridge.query(swap_query("bob", "bob_key", 7)).err(), Some(ContractError::NotFound));
}

#[test]
fn paused_contract_refuses_all_but_status() {
    let mut bridge = init_helper(init_msg("M"), "A");
    let r = bridge.handle(&s("A"), HandleMsg::SetContractStatus { level: ContractStatusLevel::Paused });
    assert_eq!(r.unwrap().data, HandleResult::SetContractStatus { status: ResponseStatus::Success });
    let refused = vec![
        mint("t1", "U", 5),
        burn("U", 10000, Some("dest")),
        HandleMsg::ChangeAdmin { address: s("B") },
        HandleMsg::SetViewingKey { key: s("k") },
        HandleMsg::SetMinters { minters: vec![] },
        HandleMsg::ChangeSecretMoneroContract { secret_monero: token() },
    ];
    for msg in refused {
        let sender = if matches!(msg, HandleMsg::Receive { .. }) { "tokenAddr" } else { "A" };
        let sender = if matches!(msg, HandleMsg::MintSecretMonero { .. }) { "M" } else { sender };
        assert_eq!(bridge.handle(&s(sender), msg).err(), Some(ContractError::Paused));
    }
    assert_eq!(bridge.proofs.proofs.len(), 0);
    let stranger = bridge.handle(&s("X"), HandleMsg::SetContractStatus { level: ContractStatusLevel::Running });
    assert_eq!(stranger.err(), Some(ContractError::NotAdmin));
    let again = bridge.handle(&s("A"), HandleMsg::SetContractStatus { level: ContractStatusLevel::Paused });
    assert!(again.is_ok());
    let resumed = bridge.handle(&s("A"), HandleMsg::SetContractStatus { level: ContractStatusLevel::Running });
    assert!(resumed.is_ok());
    assert!(bridge.handle(&s("M"), mint("t1", "U", 5)).is_ok());
}

#[test]
fn admin_commands_need_admin() {
    let mut bridge = init_helper(init_msg("M"), "A");
    assert_eq!(
        bridge.handle(&s("M"), HandleMsg::ChangeAdmin { address: s("M") }).err(),
        Some(ContractError::NotAdmin)
    );
    assert_eq!(
        bridge.handle(&s("M"), HandleMsg::SetMinters { minters: vec![s("M2")] }).err(),
        Some(ContractError::NotAdmin)
    );
    assert!(bridge.handle(&s("A"), HandleMsg::ChangeAdmin { address: s("B") }).is_ok());
    assert_eq!(bridge.config.constants.admin, "B");
    assert_eq!(
        bridge.handle(&s("A"), HandleMsg::ChangeAdmin { address: s("A") }).err(),
        Some(ContractError::NotAdmin)
    );
}

#[test]
fn set_minters_replaces_the_set() {
    let mut bridge = init_helper(init_msg("M"), "A");
    bridge.handle(&s("A"), HandleMsg::SetMinters { minters: vec![s("N")] }).unwrap();
    assert_eq!(bridge.handle(&s("M"), mint("t1", "U", 5)).err(), Some(ContractError::NotMinter));
    assert!(bridge.handle(&s("N"), mint("t1", "U", 5)).is_ok());
}

#[test]
fn change_token_reference_rotates_registration() {
    let mut bridge = init_helper(init_msg("M"), "A");
    let new_token = Snip20 { address: s("newAddr"), contract_hash: s("newHash") };
    let r = bridge
        .handle(&s("A"), HandleMsg::ChangeSecretMoneroContract { secret_monero: new_token })
        .unwrap();
    assert_eq!(r.messages.len(), 3);
    assert!(matches!(&r.messages[0], OutboundMsg::DeregisterReceive { token } if token.address == "tokenAddr"));
    assert!(matches!(&r.messages[1], OutboundMsg::RegisterReceive { token } if token.address == "newAddr"));
    assert!(
        matches!(&r.messages[2], OutboundMsg::SetViewingKey { key, token } if key == "vk" && token.address == "newAddr")
    );
    assert_eq!(bridge.config.constants.snip20.address, "newAddr");
    assert_eq!(
        bridge.handle(&s("tokenAddr"), burn("U", 10000, Some("d"))).err(),
        Some(ContractError::NotTokenContract)
    );
    assert!(bridge.handle(&s("newAddr"), burn("U", 10000, Some("d"))).is_ok());
}

#[test]
fn admin_viewing_key_rotates_service_credential() {
    let mut bridge = init_helper(init_msg("M"), "A");
    let r = bridge.handle(&s("A"), HandleMsg::SetViewingKey { key: s("newvk") }).unwrap();
    assert_eq!(r.data, HandleResult::SetViewingKey { status: ResponseStatus::Success });
    assert!(matches!(&r.messages[0], OutboundMsg::SetViewingKey { key, token } if key == "newvk" && token.address == "tokenAddr"));
    assert_eq!(bridge.config.constants.viewing_key, "newvk");
    assert_eq!(bridge.viewing_keys.entries.len(), 0);
}

#[test]
fn balance_query_is_gated_and_uses_own_credential() {
    let mut bridge = init_helper(init_msg("M"), "A");
    let refused = bridge.query(QueryMsg::SecretMoneroBalance { address: s("U"), viewing_key: s("k") });
    assert!(matches!(refused, Ok(QueryOutcome::Response(QueryResponse::ViewingKeyError))));
    bridge.handle(&s("U"), HandleMsg::SetViewingKey { key: s("k") }).unwrap();
    match bridge.query(QueryMsg::SecretMoneroBalance { address: s("U"), viewing_key: s("k") }) {
        Ok(QueryOutcome::LookupBalance { address, key, token }) => {
            assert_eq!(address, "U");
            assert_eq!(key, "vk");
            assert_eq!(token.address, "tokenAddr");
        }
        other => panic!("unexpected: {:?}", other),
    }
}

#[test]
fn stored_digest_is_sha256_of_key() {
    let mut bridge = init_helper(init_msg("M"), "A");
    bridge.handle(&s("U"), HandleMsg::SetViewingKey { key: s("test") }).unwrap();
    let expected: Vec<u8> = vec![
        159, 134, 208, 129, 136, 76, 125, 101, 154, 47, 234, 160, 197, 90, 208, 21, 163, 191, 79,
        27, 43, 11, 130, 44, 209, 93, 108, 21, 176, 240, 10, 8,
    ];
    assert_eq!(bridge.viewing_keys.entries[0].0, "U");
    assert_eq!(bridge.viewing_keys.entries[0].1, expected);
    assert_eq!(bridge::crypto::hash_viewing_key("test"), expected);
}

#[test]
fn invariant_check_detects_broken_ledgers() {
    let mut bridge = init_helper(init_msg("M"), "A");
    assert!(bridge.check_wf());
    bridge.handle(&s("M"), mint("t1", "U", 5)).unwrap();
    bridge.handle(&s("tokenAddr"), burn("U", 10000, Some("d"))).unwrap();
    bridge.handle(&s("U"), HandleMsg::SetViewingKey { key: s("k") }).unwrap();
    assert!(bridge.check_wf());

    bridge.proofs.proofs.push(make_proof("t1"));
    assert!(!bridge.proofs.check_wf());
    assert!(!bridge.check_wf());
    bridge.proofs.proofs.pop();

    bridge.swaps.swaps[0].nonce = 3;
    assert!(!bridge.swaps.check_wf());
    bridge.swaps.swaps[0].nonce = 0;
    assert!(bridge.swaps.check_wf());

    bridge.viewing_keys.entries.push((s("U"), vec![0u8; 32]));
    assert!(!bridge.viewing_keys.check_wf());
    assert!(!bridge.check_wf());
}
