use ed25519_dalek::{ExpandedSecretKey, Keypair, PublicKey};
use rand_core::OsRng;
use sha2::{Digest, Sha512};

use nft_bridge::contract::{handle, init, query, HandleOutcome, OutMsg, QueryAnswer};
use nft_bridge::msg::{
    encode_bridge_action, encode_set_pause, BridgeAction, EnvInfo, HandleMsg, InitMsg, QueryMsg,
    SetGroupKey, SetPause, Sig, ValidatorInfo, WhitelistNft,
};
use nft_bridge::state::Store;
use nft_bridge::BridgeError;

const CHAIN_NONCE: u64 = 1;
const ACTION_ID: u128 = 1;

fn ed25519_kp() -> Keypair {
    Keypair::generate(&mut OsRng)
}

fn test_env() -> EnvInfo {
    EnvInfo { contract_address: b"cosmos2contract".to_vec(), sent_funds: Vec::new() }
}

fn fee_env() -> EnvInfo {
    EnvInfo {
        contract_address: b"cosmos2contract".to_vec(),
        sent_funds: vec![nft_bridge::msg::Coin { denom: b"SCRT".to_vec(), amount: 7 }],
    }
}

fn init_func(pubk: &PublicKey) -> Store {
    init(InitMsg { group_key: pubk.to_bytes(), chain_nonce: CHAIN_NONCE, whitelist: Vec::new() })
}

fn gen_sig(
    kp: &Keypair,
    env: &EnvInfo,
    action_id: u128,
    context: &[u8],
    inner: Vec<u8>,
) -> ValidatorInfo {
    let secret: ExpandedSecretKey = (&kp.secret).into();
    let act = BridgeAction::new(env, action_id, CHAIN_NONCE, inner);
    let raw = encode_bridge_action(&act);

    let mut hasher = Sha512::new();
    hasher.update(context);
    hasher.update(&raw);
    let dig = hasher.finalize();

    let sig = Sig(secret.sign(&dig, &kp.public).to_bytes());
    ValidatorInfo { action_id, sig }
}

fn expect_done(r: Result<HandleOutcome, BridgeError>) -> Store {
    match r {
        Ok(HandleOutcome::Done(h)) => h.store,
        other => panic!("expected a completed operation, got {:?}", other.is_ok()),
    }
}

#[test]
fn proper_initialization() {
    let kp = ed25519_kp();
    let deps = init_func(&kp.public);

    assert!(matches!(query(&deps, &QueryMsg::GetEventCnt), QueryAnswer::EventCnt(0)));
    assert!(matches!(query(&deps, &QueryMsg::GetPaused), QueryAnswer::Paused(false)));
    match query(&deps, &QueryMsg::GetGroupKey) {
        QueryAnswer::GroupKey(k) => assert_eq!(k, kp.public.to_bytes()),
        _ => panic!("wrong query answer"),
    }
}

#[test]
fn set_pause() {
    let kp = ed25519_kp();
    let env = test_env();
    let deps = init_func(&kp.public);

    let inner = SetPause(true);
    let info = gen_sig(&kp, &env, ACTION_ID, b"SetPause", encode_set_pause(&inner));
    let deps = expect_done(handle(&deps, &env, HandleMsg::SetPause { info, inner }));

    assert!(matches!(query(&deps, &QueryMsg::GetPaused), QueryAnswer::Paused(true)));
}

#[test]
fn set_gk() {
    let kp = ed25519_kp();
    let env = test_env();
    let deps = init_func(&kp.public);

    let kp2 = ed25519_kp();
    let inner = SetGroupKey(kp2.public.to_bytes());
    let payload = nft_bridge::msg::encode_set_group_key(&inner);
    let info = gen_sig(&kp, &env, ACTION_ID, b"SetGroupKey", payload);
    let deps = expect_done(handle(&deps, &env, HandleMsg::SetGroupKey { info, inner }));

    match query(&deps, &QueryMsg::GetGroupKey) {
        QueryAnswer::GroupKey(k) => assert_eq!(k, kp2.public.to_bytes()),
        _ => panic!("wrong query answer"),
    }
}

#[test]
fn add_whitelist() {
    let kp = ed25519_kp();
    let env = test_env();
    let deps = init_func(&kp.public);

    let addr = vec![1u8; 20];
    let inner = WhitelistNft(addr.clone());
    let payload = nft_bridge::msg::encode_whitelist_nft(&inner);
    let info = gen_sig(&kp, &env, ACTION_ID, b"WhitelistNft", payload);
    let deps = expect_done(handle(&deps, &env, HandleMsg::WhitelistNft { info, inner }));

    assert!(matches!(
        query(&deps, &QueryMsg::GetWhitelisted { addr }),
        QueryAnswer::Whitelisted(true)
    ));
}

#[test]
fn invalid_signature_burns_action_id() {
    // An attempt with a bad signature fails with Unauthorized, but still
    // consumes the action id: a second attempt with a correct signature
    // fails with DuplicateAction.
    let kp = ed25519_kp();
    let env = test_env();
    let deps = init_func(&kp.public);
    let mut store = nft_bridge::contract::clone_store(&deps);
    let state = store.config_read();

    let bad = ValidatorInfo { action_id: ACTION_ID, sig: Sig([0u8; 64]) };
    let r = nft_bridge::auth::require_sig_config(
        &mut store,
        &env,
        state,
        &bad,
        b"SetPause".to_vec(),
        encode_set_pause(&SetPause(true)),
    );
    assert_eq!(r, Err(BridgeError::Unauthorized));

    let good = gen_sig(&kp, &env, ACTION_ID, b"SetPause", encode_set_pause(&SetPause(true)));
    let r = nft_bridge::auth::require_sig_config(
        &mut store,
        &env,
        state,
        &good,
        b"SetPause".to_vec(),
        encode_set_pause(&SetPause(true)),
    );
    assert_eq!(r, Err(BridgeError::DuplicateAction));
}

#[test]
fn namespaces_are_independent() {
    // The same action id can be consumed once in each namespace.
    let kp = ed25519_kp();
    let env = test_env();
    let deps = init_func(&kp.public);
    let mut store = nft_bridge::contract::clone_store(&deps);
    let state = store.config_read();

    let info = gen_sig(&kp, &env, ACTION_ID, b"SetPause", encode_set_pause(&SetPause(false)));
    let r = nft_bridge::auth::require_sig_config(
        &mut store,
        &env,
        state,
        &info,
        b"SetPause".to_vec(),
        encode_set_pause(&SetPause(false)),
    );
    assert_eq!(r, Ok(()));

    assert!(matches!(
        query(&store, &QueryMsg::GetActionConfigConsumed { action: ACTION_ID }),
        QueryAnswer::ActionConfigConsumed(true)
    ));
    assert!(matches!(
        query(&store, &QueryMsg::GetActionConsumed { action: ACTION_ID }),
        QueryAnswer::ActionConsumed(false)
    ));
}

#[test]
fn altered_payload_is_unauthorized() {
    // A signature over SetPause(true) does not authorize SetPause(false),
    // and a signature made for one label does not authorize another.
    let kp = ed25519_kp();
    let env = test_env();
    let deps = init_func(&kp.public);

    let info = gen_sig(&kp, &env, ACTION_ID, b"SetPause", encode_set_pause(&SetPause(true)));
    let r = handle(&deps, &env, HandleMsg::SetPause { info, inner: SetPause(false) });
    assert!(matches!(r, Err(BridgeError::Unauthorized)));

    let info = gen_sig(&kp, &env, 2, b"SetGroupKey", encode_set_pause(&SetPause(true)));
    let r = handle(&deps, &env, HandleMsg::SetPause { info, inner: SetPause(true) });
    assert!(matches!(r, Err(BridgeError::Unauthorized)));
}

#[test]
fn pause_blocks_movement_and_toggle_restores() {
    let kp = ed25519_kp();
    let env = test_env();
    let deps = init_func(&kp.public);

    // Whitelist the source contract first.
    let addr = vec![7u8; 20];
    let inner = WhitelistNft(addr.clone());
    let payload = nft_bridge::msg::encode_whitelist_nft(&inner);
    let info = gen_sig(&kp, &env, 10, b"WhitelistNft", payload);
    let deps = expect_done(handle(&deps, &env, HandleMsg::WhitelistNft { info, inner }));

    // Pause.
    let inner = SetPause(true);
    let info = gen_sig(&kp, &env, 1, b"SetPause", encode_set_pause(&inner));
    let deps = expect_done(handle(&deps, &env, HandleMsg::SetPause { info, inner }));

    // A movement operation while paused fails with Paused and asks for no
    // collaborator call.
    let freeze = HandleMsg::FreezeNft {
        contract: addr.clone(),
        contract_hash: b"hash".to_vec(),
        token_id: b"tok".to_vec(),
        to: b"bob".to_vec(),
        chain_nonce: 5,
        minter: b"minter".to_vec(),
    };
    let r = handle(&deps, &fee_env(), freeze);
    assert!(matches!(r, Err(BridgeError::Paused)));
    assert!(matches!(query(&deps, &QueryMsg::GetEventCnt), QueryAnswer::EventCnt(0)));

    // Unpause with a distinct action id.
    let inner = SetPause(false);
    let info = gen_sig(&kp, &env, 2, b"SetPause", encode_set_pause(&inner));
    let deps = expect_done(handle(&deps, &env, HandleMsg::SetPause { info, inner }));
    assert!(matches!(query(&deps, &QueryMsg::GetPaused), QueryAnswer::Paused(false)));

    // Full operability is restored: the same freeze now passes the gates.
    let freeze = HandleMsg::FreezeNft {
        contract: addr,
        contract_hash: b"hash".to_vec(),
        token_id: b"tok".to_vec(),
        to: b"bob".to_vec(),
        chain_nonce: 5,
        minter: b"minter".to_vec(),
    };
    let r = handle(&deps, &fee_env(), freeze);
    assert!(matches!(r, Ok(HandleOutcome::NeedsCollaborator(_))));
}

#[test]
fn freeze_increments_event_cnt_and_uses_old_counter() {
    let kp = ed25519_kp();
    let env = test_env();
    let deps = init_func(&kp.public);

    let addr = vec![7u8; 20];
    let inner = WhitelistNft(addr.clone());
    let payload = nft_bridge::msg::encode_whitelist_nft(&inner);
    let info = gen_sig(&kp, &env, 10, b"WhitelistNft", payload);
    let deps = expect_done(handle(&deps, &env, HandleMsg::WhitelistNft { info, inner }));

    let freeze = HandleMsg::FreezeNft {
        contract: addr,
        contract_hash: b"hash".to_vec(),
        token_id: b"tok".to_vec(),
        to: b"bob".to_vec(),
        chain_nonce: 5,
        minter: b"minter".to_vec(),
    };
    let p = match handle(&deps, &fee_env(), freeze) {
        Ok(HandleOutcome::NeedsCollaborator(p)) => p,
        _ => panic!("freeze should pass the policy gates"),
    };
    assert_eq!(p.act_id, 0);
    assert_eq!(p.fee, 7);
    assert!(matches!(query(&p.store, &QueryMsg::GetEventCnt), QueryAnswer::EventCnt(1)));

    // The emitted bridge event carries the counter value before the
    // increment.
    let dossier = nft_bridge::events::NftDossier { public_metadata: None, private_metadata: None };
    let (messages, log) = nft_bridge::contract::freeze_nft_finish(
        &fee_env(),
        p.act_id,
        p.fee,
        b"contract".to_vec(),
        b"hash".to_vec(),
        b"tok".to_vec(),
        b"bob".to_vec(),
        5,
        b"minter".to_vec(),
        dossier,
    );
    assert_eq!(messages.len(), 1);
    assert!(matches!(messages[0], OutMsg::TransferNft { .. }));
    assert_eq!(log[0].key, b"BridgeEventInfo".to_vec());
    assert_eq!(
        log[0].value,
        br#"{"action_id":0,"chain_nonce":5,"tx_fees":7,"to":"bob"}"#.to_vec()
    );
    assert_eq!(log[1].key, b"TransferSnip721".to_vec());
    assert_eq!(
        log[1].value,
        br#"{"contract_addr":"contract","contract_hash":"hash","mint_with":"minter","info":{"public_metadata":null,"private_metadata":null,"token_id":"tok"}}"#.to_vec()
    );
}

#[test]
fn freeze_not_whitelisted_changes_nothing() {
    let kp = ed25519_kp();
    let deps = init_func(&kp.public);

    let freeze = HandleMsg::FreezeNft {
        contract: vec![9u8; 20],
        contract_hash: b"hash".to_vec(),
        token_id: b"tok".to_vec(),
        to: b"bob".to_vec(),
        chain_nonce: 5,
        minter: b"minter".to_vec(),
    };
    let r = handle(&deps, &fee_env(), freeze);
    assert!(matches!(r, Err(BridgeError::NotWhitelisted)));

    // The caller's store is untouched: counter, whitelist and action records
    // are all unchanged.
    assert!(matches!(query(&deps, &QueryMsg::GetEventCnt), QueryAnswer::EventCnt(0)));
    assert!(matches!(
        query(&deps, &QueryMsg::GetWhitelisted { addr: vec![9u8; 20] }),
        QueryAnswer::Whitelisted(false)
    ));
}

#[test]
fn freeze_without_fee_fails() {
    let kp = ed25519_kp();
    let env = test_env();
    let deps = init_func(&kp.public);

    let addr = vec![7u8; 20];
    let inner = WhitelistNft(addr.clone());
    let payload = nft_bridge::msg::encode_whitelist_nft(&inner);
    let info = gen_sig(&kp, &env, 10, b"WhitelistNft", payload);
    let deps = expect_done(handle(&deps, &env, HandleMsg::WhitelistNft { info, inner }));

    let freeze = HandleMsg::FreezeNft {
        contract: addr,
        contract_hash: b"hash".to_vec(),
        token_id: b"tok".to_vec(),
        to: b"bob".to_vec(),
        chain_nonce: 5,
        minter: b"minter".to_vec(),
    };
    let r = handle(&deps, &test_env(), freeze);
    assert!(matches!(r, Err(BridgeError::FeeRequired)));
}

#[test]
fn withdraw_requires_token_uri() {
    let no_uri = nft_bridge::events::NftDossier {
        public_metadata: Some(nft_bridge::events::Meta { token_uri: None, extension: None }),
        private_metadata: None,
    };
    let r = nft_bridge::contract::withdraw_nft_finish(
        3,
        7,
        b"burner".to_vec(),
        b"bhash".to_vec(),
        b"tok".to_vec(),
        b"bob".to_vec(),
        5,
        no_uri,
    );
    assert!(matches!(r, Err(BridgeError::Unauthorized)));

    let with_uri = nft_bridge::events::NftDossier {
        public_metadata: Some(nft_bridge::events::Meta {
            token_uri: Some(b"ipfs://x".to_vec()),
            extension: None,
        }),
        private_metadata: None,
    };
    let (messages, log) = nft_bridge::contract::withdraw_nft_finish(
        3,
        7,
        b"burner".to_vec(),
        b"bhash".to_vec(),
        b"tok".to_vec(),
        b"bob".to_vec(),
        5,
        with_uri,
    )
    .expect("uri present");
    assert_eq!(messages.len(), 1);
    assert!(matches!(messages[0], OutMsg::BurnNft { .. }));
    assert_eq!(log[1].key, b"UnfreezeSnip721".to_vec());
    assert_eq!(
        log[1].value,
        br#"{"token_uri":"ipfs://x","burner":"burner"}"#.to_vec()
    );
}

#[test]
fn event_encoder_escapes_strings() {
    let e = nft_bridge::events::BridgeEventInfo::new(
        ACTION_ID,
        2,
        340282366920938463463374607431768211455u128,
        b"a\"b\\c\x01".to_vec(),
    );
    let a = nft_bridge::events::encode_bridge_event_info(&e);
    assert_eq!(a.key, b"BridgeEventInfo".to_vec());
    assert_eq!(
        a.value,
        br#"{"action_id":1,"chain_nonce":2,"tx_fees":340282366920938463463374607431768211455,"to":"a\"b\\c\u0001"}"#.to_vec()
    );
}

#[test]
fn encoding_binds_every_field() {
    // Two actions that differ in a single field have different canonical
    // encodings: one hash over the encoding covers all of them.
    let env = test_env();
    let base = encode_bridge_action(&BridgeAction::new(&env, 1, 1, vec![1, 2, 3]));
    assert_ne!(base, encode_bridge_action(&BridgeAction::new(&env, 2, 1, vec![1, 2, 3])));
    assert_ne!(base, encode_bridge_action(&BridgeAction::new(&env, 1, 2, vec![1, 2, 3])));
    assert_ne!(base, encode_bridge_action(&BridgeAction::new(&env, 1, 1, vec![1, 2, 4])));
    let other = EnvInfo { contract_address: b"other".to_vec(), sent_funds: Vec::new() };
    assert_ne!(base, encode_bridge_action(&BridgeAction::new(&other, 1, 1, vec![1, 2, 3])));
}

#[test]
fn end_to_end_bridge_flow() {
    let kp = ed25519_kp();
    let env = test_env();
    let deps = init_func(&kp.public);

    assert!(matches!(query(&deps, &QueryMsg::GetPaused), QueryAnswer::Paused(false)));
    match query(&deps, &QueryMsg::GetGroupKey) {
        QueryAnswer::GroupKey(k) => assert_eq!(k, kp.public.to_bytes()),
        _ => panic!("wrong query answer"),
    }

    // Pause under action id 1; the identical signed request replays as a
    // duplicate.
    let inner = SetPause(true);
    let info = gen_sig(&kp, &env, 1, b"SetPause", encode_set_pause(&inner));
    let replay = ValidatorInfo { action_id: info.action_id, sig: Sig(info.sig.0) };
    let deps = expect_done(handle(&deps, &env, HandleMsg::SetPause { info, inner }));
    assert!(matches!(query(&deps, &QueryMsg::GetPaused), QueryAnswer::Paused(true)));
    let r = handle(&deps, &env, HandleMsg::SetPause { info: replay, inner: SetPause(true) });
    assert!(matches!(r, Err(BridgeError::DuplicateAction)));

    // Unpause, whitelist A, then freeze twice: the counter advances 0 -> 1
    // -> 2 and each freeze uses the value before its increment.
    let inner = SetPause(false);
    let info = gen_sig(&kp, &env, 2, b"SetPause", encode_set_pause(&inner));
    let deps = expect_done(handle(&deps, &env, HandleMsg::SetPause { info, inner }));

    let addr = vec![1u8; 20];
    let inner = WhitelistNft(addr.clone());
    let payload = nft_bridge::msg::encode_whitelist_nft(&inner);
    let info = gen_sig(&kp, &env, 3, b"WhitelistNft", payload);
    let deps = expect_done(handle(&deps, &env, HandleMsg::WhitelistNft { info, inner }));

    let freeze = |deps: &Store| {
        handle(
            deps,
            &fee_env(),
            HandleMsg::FreezeNft {
                contract: addr.clone(),
                contract_hash: b"hash".to_vec(),
                token_id: b"tok".to_vec(),
                to: b"bob".to_vec(),
                chain_nonce: 5,
                minter: b"minter".to_vec(),
            },
        )
    };
    let p = match freeze(&deps) {
        Ok(HandleOutcome::NeedsCollaborator(p)) => p,
        _ => panic!("first freeze should pass"),
    };
    assert_eq!(p.act_id, 0);
    assert!(matches!(query(&p.store, &QueryMsg::GetEventCnt), QueryAnswer::EventCnt(1)));
    let p2 = match freeze(&p.store) {
        Ok(HandleOutcome::NeedsCollaborator(p)) => p,
        _ => panic!("second freeze should pass"),
    };
    assert_eq!(p2.act_id, 1);
    assert!(matches!(query(&p2.store, &QueryMsg::GetEventCnt), QueryAnswer::EventCnt(2)));
}

#[test]
fn validate_transfer_mints_to_owner() {
    let kp = ed25519_kp();
    let env = test_env();
    let deps = init_func(&kp.public);

    let inner = nft_bridge::msg::ValidateTransferNft {
        mint_args: nft_bridge::msg::MintArgs {
            minter: b"minter".to_vec(),
            minter_hash: b"mhash".to_vec(),
            token_uri: b"uri".to_vec(),
            token_id: b"tok".to_vec(),
        },
        to: b"alice".to_vec(),
    };
    let payload = nft_bridge::msg::encode_validate_transfer_nft(&inner);
    let info = gen_sig(&kp, &env, ACTION_ID, b"ValidateTransferNft", payload);
    let h = match handle(&deps, &env, HandleMsg::ValidateTransferNft { info, inner }) {
        Ok(HandleOutcome::Done(h)) => h,
        _ => panic!("transfer should be authorized"),
    };
    assert_eq!(h.messages.len(), 1);
    match &h.messages[0] {
        OutMsg::MintNft { token_id, owner, token_uri, minter_hash, minter } => {
            assert_eq!(token_id, &b"tok".to_vec());
            assert_eq!(owner, &b"alice".to_vec());
            assert_eq!(token_uri, &b"uri".to_vec());
            assert_eq!(minter_hash, &b"mhash".to_vec());
            assert_eq!(minter, &b"minter".to_vec());
        },
        _ => panic!("expected a mint request"),
    }
    assert!(matches!(
        query(&h.store, &QueryMsg::GetActionConsumed { action: ACTION_ID }),
        QueryAnswer::ActionConsumed(true)
    ));
}

#[test]
fn withdraw_fees_sends_whole_balance() {
    let kp = ed25519_kp();
    let env = test_env();
    let deps = init_func(&kp.public);

    let inner = nft_bridge::msg::WithdrawFees(b"treasury".to_vec());
    let payload = nft_bridge::msg::encode_withdraw_fees(&inner);
    let info = gen_sig(&kp, &env, ACTION_ID, b"WithdrawFees", payload);
    let h = match handle(&deps, &env, HandleMsg::WithdrawFees { info, inner }) {
        Ok(HandleOutcome::Done(h)) => h,
        _ => panic!("withdrawal should be authorized"),
    };
    assert_eq!(h.messages.len(), 1);
    match &h.messages[0] {
        OutMsg::BankSend { to_address } => assert_eq!(to_address, &b"treasury".to_vec()),
        _ => panic!("expected a bank send"),
    }
    assert!(h.log.is_empty());
}

#[test]
fn validate_unfreeze_batch_transfers_each_token() {
    let kp = ed25519_kp();
    let env = test_env();
    let deps = init_func(&kp.public);

    let args = |n: u8| nft_bridge::msg::UnfreezeArgs {
        contract: vec![n; 4],
        contract_hash: b"h".to_vec(),
        token_id: vec![n + 1; 3],
    };
    let inner = nft_bridge::msg::ValidateUnfreezeNftBatch {
        unfreeze_args: vec![args(1), args(5)],
        to: b"alice".to_vec(),
    };
    let payload = nft_bridge::msg::encode_validate_unfreeze_nft_batch(&inner);
    let info = gen_sig(&kp, &env, ACTION_ID, b"ValidateUnfreezeNftBatch", payload);
    let h = match handle(&deps, &env, HandleMsg::ValidateUnfreezeNftBatch { info, inner }) {
        Ok(HandleOutcome::Done(h)) => h,
        _ => panic!("batch unfreeze should be authorized"),
    };
    assert_eq!(h.messages.len(), 2);
    match &h.messages[1] {
        OutMsg::TransferNft { recipient, token_id, contract_hash, contract } => {
            assert_eq!(recipient, &b"alice".to_vec());
            assert_eq!(token_id, &vec![6u8; 3]);
            assert_eq!(contract_hash, &b"h".to_vec());
            assert_eq!(contract, &vec![5u8; 4]);
        }
        _ => panic!("expected a transfer request"),
    }
}

#[test]
fn freeze_batch_event_lists_every_token() {
    let dossier = |uri: &[u8]| nft_bridge::events::NftDossier {
        public_metadata: Some(nft_bridge::events::Meta {
            token_uri: Some(uri.to_vec()),
            extension: None,
        }),
        private_metadata: None,
    };
    let (messages, log) = nft_bridge::contract::freeze_nft_batch_finish(
        &fee_env(),
        4,
        7,
        b"contract".to_vec(),
        b"hash".to_vec(),
        vec![b"t1".to_vec(), b"t2".to_vec()],
        b"bob".to_vec(),
        9,
        b"minter".to_vec(),
        vec![dossier(b"u1"), dossier(b"u2")],
    );
    assert_eq!(messages.len(), 1);
    match &messages[0] {
        OutMsg::BatchTransferNft { recipient, token_ids, .. } => {
            assert_eq!(recipient, &b"cosmos2contract".to_vec());
            assert_eq!(token_ids, &vec![b"t1".to_vec(), b"t2".to_vec()]);
        }
        _ => panic!("expected a batch transfer request"),
    }
    assert_eq!(log[0].value, br#"{"action_id":4,"chain_nonce":9,"tx_fees":7,"to":"bob"}"#.to_vec());
    assert_eq!(log[1].key, b"TransferSnip721Batch".to_vec());
    assert_eq!(
        log[1].value,
        br#"{"infos":[{"public_metadata":{"token_uri":"u1","extension":null},"private_metadata":null,"token_id":"t1"},{"public_metadata":{"token_uri":"u2","extension":null},"private_metadata":null,"token_id":"t2"}],"contract_addr":"contract","contract_hash":"hash","mint_with":"minter"}"#.to_vec()
    );
}

#[test]
fn withdraw_batch_requires_every_uri() {
    let with_uri = nft_bridge::events::NftDossier {
        public_metadata: Some(nft_bridge::events::Meta {
            token_uri: Some(b"u1".to_vec()),
            extension: None,
        }),
        private_metadata: None,
    };
    let without = nft_bridge::events::NftDossier { public_metadata: None, private_metadata: None };
    let r = nft_bridge::contract::withdraw_nft_batch_finish(
        4,
        7,
        b"burner".to_vec(),
        b"bhash".to_vec(),
        vec![b"t1".to_vec(), b"t2".to_vec()],
        b"bob".to_vec(),
        9,
        vec![with_uri, without],
    );
    assert!(matches!(r, Err(BridgeError::Unauthorized)));
}
