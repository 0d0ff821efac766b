//! The bridge state machine: initialization, the administrative and movement
//! operations, and the read-only queries.
//!
//! Every operation takes the store by reference and returns the updated store
//! only inside a successful result: a failed invocation leaves the caller's
//! store untouched, which is exactly the all-or-nothing commit the host
//! guarantees. The chain-originating movement operations run in two steps:
//! the policy step decides and allocates the action id, the host then queries
//! the NFT collaborator, and the finishing step assembles the outbound
//! messages and log events from the collaborator's answer.
use vstd::prelude::*;
use crate::auth::{require_sig, require_sig_config, sig_authorizes};
use crate::encode::max_enc_len;
use crate::events::{
    encode_bridge_event_info, encode_transfer_snip721, encode_transfer_snip721_batch,
    encode_unfreeze_snip721, encode_unfreeze_snip721_batch, json_bridge_event_info,
    json_transfer_snip721, json_transfer_snip721_batch_parts, json_unfreeze_snip721,
    json_unfreeze_snip721_batch_parts, lemma_json_transfer_info_list_congruent,
    transfer_info_matches, ev_key_bridge_event_info, ev_key_transfer_snip721,
    ev_key_transfer_snip721_batch, ev_key_unfreeze_snip721, ev_key_unfreeze_snip721_batch,
    BridgeEventInfo, LogAttribute, Meta, NftDossier, TransferInfo, TransferSnip721,
    TransferSnip721Batch, UnfreezeSnip721, UnfreezeSnip721Batch,
};
use crate::labels::{
    label_set_group_key, label_set_group_key_bytes, label_set_pause, label_set_pause_bytes,
    label_validate_transfer_nft, label_validate_transfer_nft_batch,
    label_validate_transfer_nft_batch_bytes, label_validate_transfer_nft_bytes,
    label_validate_unfreeze_nft, label_validate_unfreeze_nft_batch,
    label_validate_unfreeze_nft_batch_bytes, label_validate_unfreeze_nft_bytes,
    label_whitelist_nft, label_whitelist_nft_bytes, label_withdraw_fees, label_withdraw_fees_bytes,
};
use crate::msg::{
    enc_set_group_key, enc_set_pause, enc_validate_transfer_nft, enc_validate_transfer_nft_batch,
    enc_validate_unfreeze_nft, enc_validate_unfreeze_nft_batch, enc_whitelist_nft,
    enc_withdraw_fees, encode_set_group_key, encode_set_pause, encode_validate_transfer_nft,
    encode_validate_transfer_nft_batch, encode_validate_unfreeze_nft,
    encode_validate_unfreeze_nft_batch, encode_whitelist_nft, encode_withdraw_fees,
    validate_transfer_nft_batch_wf, validate_transfer_nft_wf, validate_unfreeze_nft_batch_wf,
    validate_unfreeze_nft_wf, Coin, EnvInfo, HandleMsg, InitMsg, MintArgs, QueryMsg, SetGroupKey,
    SetPause, UnfreezeArgs, ValidatorInfo, ValidateTransferNft, ValidateTransferNftBatch,
    ValidateUnfreezeNft, ValidateUnfreezeNftBatch, WhitelistNft, WithdrawFees,
};
use crate::state::{State, Store};
use crate::util::{clone_bytes, clone_bytes_vec, clone_opt_meta, clone_u128_vec, lemma_push_contains};
use crate::BridgeError;

verus! {

/// A request the bridge sends out: either a call on the collaborator NFT
/// contract, or a native-currency transfer of the whole fee balance.
pub enum OutMsg {
    /// Move one token to `recipient` on the NFT contract `contract`.
    TransferNft { recipient: Vec<u8>, token_id: Vec<u8>, contract_hash: Vec<u8>, contract: Vec<u8> },
    /// Move several tokens to `recipient` in one collaborator call.
    BatchTransferNft {
        recipient: Vec<u8>,
        token_ids: Vec<Vec<u8>>,
        contract_hash: Vec<u8>,
        contract: Vec<u8>,
    },
    /// Mint a wrapped token for `owner` with the given metadata reference.
    MintNft {
        token_id: Vec<u8>,
        owner: Vec<u8>,
        token_uri: Vec<u8>,
        minter_hash: Vec<u8>,
        minter: Vec<u8>,
    },
    /// Burn one wrapped token.
    BurnNft { token_id: Vec<u8>, contract_hash: Vec<u8>, contract: Vec<u8> },
    /// Burn several wrapped tokens in one collaborator call.
    BatchBurnNft { token_ids: Vec<Vec<u8>>, contract_hash: Vec<u8>, contract: Vec<u8> },
    /// Send the contract's whole fee-denomination balance to `to_address`.
    BankSend { to_address: Vec<u8> },
}

/// A completed operation: the store to commit, the outbound messages and the
/// log events to record.
pub struct HandleOk {
    pub store: Store,
    pub messages: Vec<OutMsg>,
    pub log: Vec<LogAttribute>,
}

/// A chain-originating movement operation that passed every policy gate: the
/// store to commit (action id allocated), the allocated action id and the fee
/// paid. The host queries the collaborator and hands the answer to the
/// matching finishing step.
pub struct PendingMovement {
    pub store: Store,
    pub act_id: u128,
    pub fee: u128,
}

/// What one execute call decided.
pub enum HandleOutcome {
    /// The operation is complete.
    Done(HandleOk),
    /// The operation needs the collaborator's answer to finish.
    NeedsCollaborator(PendingMovement),
}

/// The ASCII bytes of the fee denomination "SCRT".
pub open spec fn fee_denom() -> Seq<u8> {
    seq![83u8, 67, 82, 84]
}

/// The fee attached to a call: the amount of the first payment in the fee
/// denomination, if any.
pub open spec fn spec_tx_fee(funds: Seq<Coin>) -> Option<u128>
    decreases funds.len(),
{
    if funds.len() == 0 {
        Option::None
    } else if funds[0].denom@ == fee_denom() {
        Option::Some(funds[0].amount)
    } else {
        spec_tx_fee(funds.drop_first())
    }
}

/// Collect the attached fee, or fail with `FeeRequired`.
fn tx_fee(env: &EnvInfo) -> (r: Result<u128, BridgeError>)
    ensures
        match spec_tx_fee(env.sent_funds@) {
            Option::Some(f) => r == Ok::<u128, BridgeError>(f),
            Option::None => r == Err::<u128, BridgeError>(BridgeError::FeeRequired),
        },
{
    proof {
        assert(env.sent_funds@.skip(0) =~= env.sent_funds@);
    }
    let mut i: usize = 0;
    while i < env.sent_funds.len()
        invariant
            i <= env.sent_funds.len(),
            spec_tx_fee(env.sent_funds@) == spec_tx_fee(env.sent_funds@.skip(i as int)),
        decreases env.sent_funds.len() - i,
    {
        let c = &env.sent_funds[i];
        let is_fee = {
            let d: &Vec<u8> = &c.denom;
            d.len() == 4 && d[0] == 83 && d[1] == 67 && d[2] == 82 && d[3] == 84
        };
        proof {
            if is_fee {
                assert(c.denom@ =~= fee_denom());
            } else {
                assert(c.denom@ != fee_denom());
            }
            assert(env.sent_funds@.skip(i as int)[0] == env.sent_funds@[i as int]);
        }
        if is_fee {
            return Ok(c.amount);
        }
        i = i + 1;
        proof {
            assert(env.sent_funds@.skip(i as int - 1).drop_first() =~= env.sent_funds@.skip(
                i as int,
            ));
        }
    }
    proof {
        assert(env.sent_funds@.skip(env.sent_funds@.len() as int) =~= Seq::<Coin>::empty());
    }
    Err(BridgeError::FeeRequired)
}

/// A fresh copy of a store, holding the same configuration, flags and
/// whitelist.
pub fn clone_store(s: &Store) -> (r: Store)
    ensures
        r.state == s.state,
        r.actions@ == s.actions@,
        r.actions_config@ == s.actions_config@,
        r.wl() == s.wl(),
{
    let r = Store {
        state: s.state,
        actions: clone_u128_vec(&s.actions),
        actions_config: clone_u128_vec(&s.actions_config),
        whitelist: clone_bytes_vec(&s.whitelist),
    };
    proof {
        assert(r.wl() =~= s.wl());
    }
    r
}

/// Seed the configuration and mark each listed address whitelisted. The event
/// counter starts at zero and the bridge starts unpaused; no action id is
/// consumed yet.
pub fn init(msg: InitMsg) -> (store: Store)
    ensures
        store.state.group_key == msg.group_key,
        store.state.chain_nonce == msg.chain_nonce,
        store.state.event_cnt == 0,
        store.state.paused == false,
        store.actions@.len() == 0,
        store.actions_config@.len() == 0,
        forall|a: Seq<u8>|
            store.spec_whitelisted(a) <==> (exists|i: int|
                0 <= i < msg.whitelist@.len() && msg.whitelist@[i]@ == a),
{
    let mut store = Store {
        state: State {
            group_key: msg.group_key,
            event_cnt: 0,
            paused: false,
            chain_nonce: msg.chain_nonce,
        },
        actions: Vec::new(),
        actions_config: Vec::new(),
        whitelist: Vec::new(),
    };
    let mut k: usize = 0;
    while k < msg.whitelist.len()
        invariant
            k <= msg.whitelist.len(),
            store.state.group_key == msg.group_key,
            store.state.chain_nonce == msg.chain_nonce,
            store.state.event_cnt == 0,
            store.state.paused == false,
            store.actions@.len() == 0,
            store.actions_config@.len() == 0,
            forall|a: Seq<u8>|
                store.spec_whitelisted(a) <==> (exists|i: int|
                    0 <= i < k && msg.whitelist@[i]@ == a),
        decreases msg.whitelist.len() - k,
    {
        let ghost pre = store;
        store.whitelisted(clone_bytes(&msg.whitelist[k]));
        k = k + 1;
        proof {
            assert forall|a: Seq<u8>|
                store.spec_whitelisted(a) <==> (exists|i: int|
                    0 <= i < k && msg.whitelist@[i]@ == a) by {
                if store.spec_whitelisted(a) {
                    if pre.spec_whitelisted(a) {
                        let w = choose|i: int| 0 <= i < k - 1 && msg.whitelist@[i]@ == a;
                        assert(0 <= w < k && msg.whitelist@[w]@ == a);
                    } else {
                        assert(msg.whitelist@[k - 1]@ == a);
                    }
                }
                if exists|i: int| 0 <= i < k && msg.whitelist@[i]@ == a {
                    let w = choose|i: int| 0 <= i < k && msg.whitelist@[i]@ == a;
                    if w < k - 1 {
                        assert(pre.spec_whitelisted(a));
                    }
                }
            }
        }
    }
    store
}

/// The answer to a query.
pub enum QueryAnswer {
    Paused(bool),
    GroupKey([u8; 32]),
    ChainNonce(u64),
    EventCnt(u128),
    Whitelisted(bool),
    ActionConsumed(bool),
    ActionConfigConsumed(bool),
}

/// Read one value out of the store.
pub fn query(store: &Store, msg: &QueryMsg) -> (r: QueryAnswer)
    ensures
        match *msg {
            QueryMsg::GetPaused => r == QueryAnswer::Paused(store.state.paused),
            QueryMsg::GetGroupKey => r == QueryAnswer::GroupKey(store.state.group_key),
            QueryMsg::GetChainNonce => r == QueryAnswer::ChainNonce(store.state.chain_nonce),
            QueryMsg::GetEventCnt => r == QueryAnswer::EventCnt(store.state.event_cnt),
            QueryMsg::GetWhitelisted { addr } => r == QueryAnswer::Whitelisted(
                store.spec_whitelisted(addr@),
            ),
            QueryMsg::GetActionConsumed { action } => r == QueryAnswer::ActionConsumed(
                store.action_consumed(action),
            ),
            QueryMsg::GetActionConfigConsumed { action } => r == QueryAnswer::ActionConfigConsumed(
                store.action_config_consumed(action),
            ),
        },
{
    match msg {
        QueryMsg::GetPaused => QueryAnswer::Paused(store.state.paused),
        QueryMsg::GetGroupKey => QueryAnswer::GroupKey(store.state.group_key),
        QueryMsg::GetChainNonce => QueryAnswer::ChainNonce(store.state.chain_nonce),
        QueryMsg::GetEventCnt => QueryAnswer::EventCnt(store.state.event_cnt),
        QueryMsg::GetWhitelisted { addr } => QueryAnswer::Whitelisted(
            store.whitelisted_read(addr),
        ),
        QueryMsg::GetActionConsumed { action } => QueryAnswer::ActionConsumed(
            store.action_read(*action),
        ),
        QueryMsg::GetActionConfigConsumed { action } => QueryAnswer::ActionConfigConsumed(
            store.action_config_read(*action),
        ),
    }
}

/// Allocate a fresh action id for a chain-originating operation: returns the
/// current event counter and increments it.
fn action_id(store: &mut Store) -> (id: u128)
    requires
        old(store).state.event_cnt < u128::MAX,
    ensures
        id == old(store).state.event_cnt,
        final(store).state == (State {
            event_cnt: (old(store).state.event_cnt + 1) as u128,
            ..old(store).state
        }),
        final(store).actions == old(store).actions,
        final(store).actions_config == old(store).actions_config,
        final(store).whitelist == old(store).whitelist,
{
    let cnt = store.state.event_cnt;
    let mut s = store.config_read();
    s.event_cnt = cnt + 1;
    store.config(s);
    cnt
}

/// The config-action table gained exactly `id`; nothing else changed but the
/// configuration.
pub open spec fn config_table_extended(pre: Store, post: Store, id: u128) -> bool {
    &&& post.actions@ == pre.actions@
    &&& post.wl() == pre.wl()
    &&& forall|j: u128|
        post.action_config_consumed(j) <==> pre.action_config_consumed(j) || j == id
}

/// The bridge-action table gained exactly `id`; nothing else changed but the
/// configuration.
pub open spec fn bridge_table_extended(pre: Store, post: Store, id: u128) -> bool {
    &&& post.actions_config@ == pre.actions_config@
    &&& post.wl() == pre.wl()
    &&& forall|j: u128| post.action_consumed(j) <==> pre.action_consumed(j) || j == id
}

/// What `set_pause` does: not gated by the pause flag (it must stay reachable
/// to unpause); a consumed id fails with `DuplicateAction`, a bad signature
/// with `Unauthorized`; on success the pause flag holds the new value, the
/// config-action id is consumed, and nothing goes out.
pub open spec fn set_pause_post(
    pre: Store,
    env: EnvInfo,
    info: ValidatorInfo,
    inner: SetPause,
    r: Result<HandleOutcome, BridgeError>,
) -> bool {
    let authorized = sig_authorizes(
        pre.state,
        env.contract_address@,
        info,
        label_set_pause(),
        enc_set_pause(inner),
    );
    &&& (pre.action_config_consumed(info.action_id) ==> r == Err::<HandleOutcome, BridgeError>(
        BridgeError::DuplicateAction,
    ))
    &&& (!pre.action_config_consumed(info.action_id) && !authorized ==> r == Err::<
        HandleOutcome,
        BridgeError,
    >(BridgeError::Unauthorized))
    &&& (!pre.action_config_consumed(info.action_id) && authorized ==> (r matches Ok(o) && (o matches HandleOutcome::Done(h) && {
        &&& h.store.state == (State { paused: inner.0, ..pre.state })
        &&& config_table_extended(pre, h.store, info.action_id)
        &&& h.messages@.len() == 0
        &&& h.log@.len() == 0
    })))
}

/// Set or clear the pause flag under a validator signature.
pub fn set_pause(store: &Store, env: &EnvInfo, info: &ValidatorInfo, inner: SetPause) -> (r: Result<
    HandleOutcome,
    BridgeError,
>)
    requires
        env.contract_address@.len() <= max_enc_len(),
    ensures
        set_pause_post(*store, *env, *info, inner, r),
{
    let mut st = clone_store(store);
    let mut s = st.config_read();
    s.paused = inner.0;
    st.config(s);
    let payload = encode_set_pause(&inner);
    match require_sig_config(&mut st, env, s, info, label_set_pause_bytes(), payload) {
        Ok(()) => Ok(
            HandleOutcome::Done(HandleOk { store: st, messages: Vec::new(), log: Vec::new() }),
        ),
        Err(e) => Err(e),
    }
}

/// What `set_group_key` does: gated by the pause flag; the signature is
/// verified against the outgoing key (rotation is self-authorizing under the
/// old key); on success the configuration holds the new key.
pub open spec fn set_group_key_post(
    pre: Store,
    env: EnvInfo,
    info: ValidatorInfo,
    inner: SetGroupKey,
    r: Result<HandleOutcome, BridgeError>,
) -> bool {
    let authorized = sig_authorizes(
        pre.state,
        env.contract_address@,
        info,
        label_set_group_key(),
        enc_set_group_key(inner),
    );
    &&& (pre.state.paused ==> r == Err::<HandleOutcome, BridgeError>(BridgeError::Paused))
    &&& (!pre.state.paused ==> {
        &&& (pre.action_config_consumed(info.action_id) ==> r == Err::<HandleOutcome, BridgeError>(
            BridgeError::DuplicateAction,
        ))
        &&& (!pre.action_config_consumed(info.action_id) && !authorized ==> r == Err::<
            HandleOutcome,
            BridgeError,
        >(BridgeError::Unauthorized))
        &&& (!pre.action_config_consumed(info.action_id) && authorized ==> (r matches Ok(o) && (o matches HandleOutcome::Done(h) && {
            &&& h.store.state == (State { group_key: inner.0, ..pre.state })
            &&& config_table_extended(pre, h.store, info.action_id)
            &&& h.messages@.len() == 0
            &&& h.log@.len() == 0
        })))
    })
}

/// Rotate the group key under a signature by the outgoing key.
pub fn set_group_key(store: &Store, env: &EnvInfo, info: &ValidatorInfo, inner: SetGroupKey) -> (r:
    Result<HandleOutcome, BridgeError>)
    requires
        env.contract_address@.len() <= max_enc_len(),
    ensures
        set_group_key_post(*store, *env, *info, inner, r),
{
    if store.state.paused {
        return Err(BridgeError::Paused);
    }
    let mut st = clone_store(store);
    let old_state = st.config_read();
    let payload = encode_set_group_key(&inner);
    match require_sig_config(&mut st, env, old_state, info, label_set_group_key_bytes(), payload) {
        Ok(()) => {
            let mut s = old_state;
            s.group_key = inner.0;
            st.config(s);
            proof {
                lemma_push_contains(store.actions_config@, info.action_id);
            }
            Ok(HandleOutcome::Done(HandleOk { store: st, messages: Vec::new(), log: Vec::new() }))
        },
        Err(e) => Err(e),
    }
}

/// What `withdraw_fees` does: gated by the pause flag; on success the single
/// outbound message moves the whole fee balance to the given address, and the
/// store changes only by the consumed config-action id.
pub open spec fn withdraw_fees_post(
    pre: Store,
    env: EnvInfo,
    info: ValidatorInfo,
    inner: WithdrawFees,
    r: Result<HandleOutcome, BridgeError>,
) -> bool {
    let authorized = sig_authorizes(
        pre.state,
        env.contract_address@,
        info,
        label_withdraw_fees(),
        enc_withdraw_fees(inner),
    );
    &&& (pre.state.paused ==> r == Err::<HandleOutcome, BridgeError>(BridgeError::Paused))
    &&& (!pre.state.paused ==> {
        &&& (pre.action_config_consumed(info.action_id) ==> r == Err::<HandleOutcome, BridgeError>(
            BridgeError::DuplicateAction,
        ))
        &&& (!pre.action_config_consumed(info.action_id) && !authorized ==> r == Err::<
            HandleOutcome,
            BridgeError,
        >(BridgeError::Unauthorized))
        &&& (!pre.action_config_consumed(info.action_id) && authorized ==> (r matches Ok(o) && (o matches HandleOutcome::Done(h) && {
            &&& h.store.state == pre.state
            &&& config_table_extended(pre, h.store, info.action_id)
            &&& h.messages@ == seq![OutMsg::BankSend { to_address: inner.0 }]
            &&& h.log@.len() == 0
        })))
    })
}

/// Move the contract's whole fee balance to the given address, under a
/// validator signature.
pub fn withdraw_fees(store: &Store, env: &EnvInfo, info: &ValidatorInfo, inner: WithdrawFees) -> (r:
    Result<HandleOutcome, BridgeError>)
    requires
        env.contract_address@.len() <= max_enc_len(),
        inner.0@.len() <= max_enc_len(),
    ensures
        withdraw_fees_post(*store, *env, *info, inner, r),
{
    if store.state.paused {
        return Err(BridgeError::Paused);
    }
    let mut st = clone_store(store);
    let state = st.config_read();
    let payload = encode_withdraw_fees(&inner);
    match require_sig_config(&mut st, env, state, info, label_withdraw_fees_bytes(), payload) {
        Ok(()) => {
            let mut messages: Vec<OutMsg> = Vec::new();
            messages.push(OutMsg::BankSend { to_address: inner.0 });
            proof {
                assert(messages@ =~= seq![OutMsg::BankSend { to_address: inner.0 }]);
            }
            Ok(HandleOutcome::Done(HandleOk { store: st, messages, log: Vec::new() }))
        },
        Err(e) => Err(e),
    }
}

/// What `whitelist_nft` does: gated by the pause flag; on success exactly the
/// given canonical address is newly whitelisted (idempotently) and the
/// config-action id is consumed.
pub open spec fn whitelist_nft_post(
    pre: Store,
    env: EnvInfo,
    info: ValidatorInfo,
    inner: WhitelistNft,
    r: Result<HandleOutcome, BridgeError>,
) -> bool {
    let authorized = sig_authorizes(
        pre.state,
        env.contract_address@,
        info,
        label_whitelist_nft(),
        enc_whitelist_nft(inner),
    );
    &&& (pre.state.paused ==> r == Err::<HandleOutcome, BridgeError>(BridgeError::Paused))
    &&& (!pre.state.paused ==> {
        &&& (pre.action_config_consumed(info.action_id) ==> r == Err::<HandleOutcome, BridgeError>(
            BridgeError::DuplicateAction,
        ))
        &&& (!pre.action_config_consumed(info.action_id) && !authorized ==> r == Err::<
            HandleOutcome,
            BridgeError,
        >(BridgeError::Unauthorized))
        &&& (!pre.action_config_consumed(info.action_id) && authorized ==> (r matches Ok(o) && (o matches HandleOutcome::Done(h) && {
            &&& h.store.state == pre.state
            &&& h.store.actions@ == pre.actions@
            &&& forall|j: u128|
                h.store.action_config_consumed(j) <==> pre.action_config_consumed(j) || j
                    == info.action_id
            &&& forall|a: Seq<u8>|
                h.store.spec_whitelisted(a) <==> pre.spec_whitelisted(a) || a == inner.0@
            &&& h.messages@.len() == 0
            &&& h.log@.len() == 0
        })))
    })
}

/// Whitelist a remote NFT contract as a freeze source, under a validator
/// signature.
pub fn whitelist_nft(store: &Store, env: &EnvInfo, info: &ValidatorInfo, inner: WhitelistNft) -> (r:
    Result<HandleOutcome, BridgeError>)
    requires
        env.contract_address@.len() <= max_enc_len(),
        inner.0@.len() <= max_enc_len(),
    ensures
        whitelist_nft_post(*store, *env, *info, inner, r),
{
    if store.state.paused {
        return Err(BridgeError::Paused);
    }
    let mut st = clone_store(store);
    let state = st.config_read();
    st.whitelisted(clone_bytes(&inner.0));
    let payload = encode_whitelist_nft(&inner);
    match require_sig_config(&mut st, env, state, info, label_whitelist_nft_bytes(), payload) {
        Ok(()) => {
            proof {
                lemma_push_contains(store.wl(), inner.0@);
            }
            Ok(HandleOutcome::Done(HandleOk { store: st, messages: Vec::new(), log: Vec::new() }))
        },
        Err(e) => Err(e),
    }
}

/// What `validate_transfer_nft` does: gated by the pause flag; on success the
/// single outbound message mints the wrapped token to the destination owner
/// through the named minter, and the bridge-action id is consumed.
pub open spec fn validate_transfer_nft_post(
    pre: Store,
    env: EnvInfo,
    info: ValidatorInfo,
    inner: ValidateTransferNft,
    r: Result<HandleOutcome, BridgeError>,
) -> bool {
    let authorized = sig_authorizes(
        pre.state,
        env.contract_address@,
        info,
        label_validate_transfer_nft(),
        enc_validate_transfer_nft(inner),
    );
    &&& (pre.state.paused ==> r == Err::<HandleOutcome, BridgeError>(BridgeError::Paused))
    &&& (!pre.state.paused ==> {
        &&& (pre.action_consumed(info.action_id) ==> r == Err::<HandleOutcome, BridgeError>(
            BridgeError::DuplicateAction,
        ))
        &&& (!pre.action_consumed(info.action_id) && !authorized ==> r == Err::<
            HandleOutcome,
            BridgeError,
        >(BridgeError::Unauthorized))
        &&& (!pre.action_consumed(info.action_id) && authorized ==> (r matches Ok(o) && (o
            matches HandleOutcome::Done(h) && {
            &&& h.store.state == pre.state
            &&& bridge_table_extended(pre, h.store, info.action_id)
            &&& h.messages@ == seq![
                OutMsg::MintNft {
                    token_id: inner.mint_args.token_id,
                    owner: inner.to,
                    token_uri: inner.mint_args.token_uri,
                    minter_hash: inner.mint_args.minter_hash,
                    minter: inner.mint_args.minter,
                },
            ]
            &&& h.log@.len() == 0
        })))
    })
}

/// Release a wrapped NFT on this chain by minting it, under a validator
/// signature.
pub fn validate_transfer_nft(
    store: &Store,
    env: &EnvInfo,
    info: &ValidatorInfo,
    inner: ValidateTransferNft,
) -> (r: Result<HandleOutcome, BridgeError>)
    requires
        env.contract_address@.len() <= max_enc_len(),
        validate_transfer_nft_wf(inner),
    ensures
        validate_transfer_nft_post(*store, *env, *info, inner, r),
{
    if store.state.paused {
        return Err(BridgeError::Paused);
    }
    let mut st = clone_store(store);
    let state = st.config_read();
    let payload = encode_validate_transfer_nft(&inner);
    match require_sig(&mut st, env, state, info, label_validate_transfer_nft_bytes(), payload) {
        Ok(()) => {
            let ValidateTransferNft { mint_args, to } = inner;
            let MintArgs { minter, minter_hash, token_uri, token_id } = mint_args;
            let mut messages: Vec<OutMsg> = Vec::new();
            messages.push(OutMsg::MintNft { token_id, owner: to, token_uri, minter_hash, minter });
            proof {
                assert(messages@ =~= seq![
                    OutMsg::MintNft {
                        token_id: inner.mint_args.token_id,
                        owner: inner.to,
                        token_uri: inner.mint_args.token_uri,
                        minter_hash: inner.mint_args.minter_hash,
                        minter: inner.mint_args.minter,
                    },
                ]);
            }
            Ok(HandleOutcome::Done(HandleOk { store: st, messages, log: Vec::new() }))
        },
        Err(e) => Err(e),
    }
}

/// What `validate_transfer_nft_batch` does: one authorization for the whole
/// batch; on success one mint message per batch element, all to the same
/// owner.
pub open spec fn validate_transfer_nft_batch_post(
    pre: Store,
    env: EnvInfo,
    info: ValidatorInfo,
    inner: ValidateTransferNftBatch,
    r: Result<HandleOutcome, BridgeError>,
) -> bool {
    let authorized = sig_authorizes(
        pre.state,
        env.contract_address@,
        info,
        label_validate_transfer_nft_batch(),
        enc_validate_transfer_nft_batch(inner),
    );
    &&& (pre.state.paused ==> r == Err::<HandleOutcome, BridgeError>(BridgeError::Paused))
    &&& (!pre.state.paused ==> {
        &&& (pre.action_consumed(info.action_id) ==> r == Err::<HandleOutcome, BridgeError>(
            BridgeError::DuplicateAction,
        ))
        &&& (!pre.action_consumed(info.action_id) && !authorized ==> r == Err::<
            HandleOutcome,
            BridgeError,
        >(BridgeError::Unauthorized))
        &&& (!pre.action_consumed(info.action_id) && authorized ==> (r matches Ok(o) && (o
            matches HandleOutcome::Done(h) && {
            &&& h.store.state == pre.state
            &&& bridge_table_extended(pre, h.store, info.action_id)
            &&& h.messages@.len() == inner.mint_args@.len()
            &&& forall|i: int|
                0 <= i < inner.mint_args@.len() ==> (#[trigger] h.messages@[i] matches
                    OutMsg::MintNft { token_id, owner, token_uri, minter_hash, minter } && (
                token_id@ == inner.mint_args@[i].token_id@ && owner@ == inner.to@ && token_uri@
                    == inner.mint_args@[i].token_uri@ && minter_hash@
                    == inner.mint_args@[i].minter_hash@ && minter@ == inner.mint_args@[i].minter@))
            &&& h.log@.len() == 0
        })))
    })
}

/// Release a batch of wrapped NFTs, under one validator signature.
pub fn validate_transfer_nft_batch(
    store: &Store,
    env: &EnvInfo,
    info: &ValidatorInfo,
    inner: ValidateTransferNftBatch,
) -> (r: Result<HandleOutcome, BridgeError>)
    requires
        env.contract_address@.len() <= max_enc_len(),
        validate_transfer_nft_batch_wf(inner),
    ensures
        validate_transfer_nft_batch_post(*store, *env, *info, inner, r),
{
    if store.state.paused {
        return Err(BridgeError::Paused);
    }
    let mut st = clone_store(store);
    let state = st.config_read();
    let payload = encode_validate_transfer_nft_batch(&inner);
    match require_sig(
        &mut st,
        env,
        state,
        info,
        label_validate_transfer_nft_batch_bytes(),
        payload,
    ) {
        Ok(()) => {
            let mut messages: Vec<OutMsg> = Vec::new();
            let mut i: usize = 0;
            while i < inner.mint_args.len()
                invariant
                    i <= inner.mint_args.len(),
                    messages@.len() == i,
                    forall|k: int|
                        0 <= k < i ==> (#[trigger] messages@[k] matches OutMsg::MintNft {
                            token_id,
                            owner,
                            token_uri,
                            minter_hash,
                            minter,
                        } && (token_id@ == inner.mint_args@[k].token_id@ && owner@ == inner.to@
                            && token_uri@ == inner.mint_args@[k].token_uri@ && minter_hash@
                            == inner.mint_args@[k].minter_hash@ && minter@
                            == inner.mint_args@[k].minter@)),
                decreases inner.mint_args.len() - i,
            {
                let a = &inner.mint_args[i];
                messages.push(
                    OutMsg::MintNft {
                        token_id: clone_bytes(&a.token_id),
                        owner: clone_bytes(&inner.to),
                        token_uri: clone_bytes(&a.token_uri),
                        minter_hash: clone_bytes(&a.minter_hash),
                        minter: clone_bytes(&a.minter),
                    },
                );
                i = i + 1;
            }
            Ok(HandleOutcome::Done(HandleOk { store: st, messages, log: Vec::new() }))
        },
        Err(e) => Err(e),
    }
}

/// What `validate_unfreeze_nft` does: on success the single outbound message
/// moves the custodied token from the bridge to the destination owner.
pub open spec fn validate_unfreeze_nft_post(
    pre: Store,
    env: EnvInfo,
    info: ValidatorInfo,
    inner: ValidateUnfreezeNft,
    r: Result<HandleOutcome, BridgeError>,
) -> bool {
    let authorized = sig_authorizes(
        pre.state,
        env.contract_address@,
        info,
        label_validate_unfreeze_nft(),
        enc_validate_unfreeze_nft(inner),
    );
    &&& (pre.state.paused ==> r == Err::<HandleOutcome, BridgeError>(BridgeError::Paused))
    &&& (!pre.state.paused ==> {
        &&& (pre.action_consumed(info.action_id) ==> r == Err::<HandleOutcome, BridgeError>(
            BridgeError::DuplicateAction,
        ))
        &&& (!pre.action_consumed(info.action_id) && !authorized ==> r == Err::<
            HandleOutcome,
            BridgeError,
        >(BridgeError::Unauthorized))
        &&& (!pre.action_consumed(info.action_id) && authorized ==> (r matches Ok(o) && (o
            matches HandleOutcome::Done(h) && {
            &&& h.store.state == pre.state
            &&& bridge_table_extended(pre, h.store, info.action_id)
            &&& h.messages@ == seq![
                OutMsg::TransferNft {
                    recipient: inner.to,
                    token_id: inner.unfreeze_args.token_id,
                    contract_hash: inner.unfreeze_args.contract_hash,
                    contract: inner.unfreeze_args.contract,
                },
            ]
            &&& h.log@.len() == 0
        })))
    })
}

/// Release a custodied NFT back out of custody, under a validator signature.
pub fn validate_unfreeze_nft(
    store: &Store,
    env: &EnvInfo,
    info: &ValidatorInfo,
    inner: ValidateUnfreezeNft,
) -> (r: Result<HandleOutcome, BridgeError>)
    requires
        env.contract_address@.len() <= max_enc_len(),
        validate_unfreeze_nft_wf(inner),
    ensures
        validate_unfreeze_nft_post(*store, *env, *info, inner, r),
{
    if store.state.paused {
        return Err(BridgeError::Paused);
    }
    let mut st = clone_store(store);
    let state = st.config_read();
    let payload = encode_validate_unfreeze_nft(&inner);
    match require_sig(&mut st, env, state, info, label_validate_unfreeze_nft_bytes(), payload) {
        Ok(()) => {
            let ValidateUnfreezeNft { unfreeze_args, to } = inner;
            let UnfreezeArgs { contract, contract_hash, token_id } = unfreeze_args;
            let mut messages: Vec<OutMsg> = Vec::new();
            messages.push(OutMsg::TransferNft { recipient: to, token_id, contract_hash, contract });
            proof {
                assert(messages@ =~= seq![
                    OutMsg::TransferNft {
                        recipient: inner.to,
                        token_id: inner.unfreeze_args.token_id,
                        contract_hash: inner.unfreeze_args.contract_hash,
                        contract: inner.unfreeze_args.contract,
                    },
                ]);
            }
            Ok(HandleOutcome::Done(HandleOk { store: st, messages, log: Vec::new() }))
        },
        Err(e) => Err(e),
    }
}

/// What `validate_unfreeze_nft_batch` does: one authorization for the whole
/// batch; on success one transfer message per batch element, all to the same
/// recipient.
pub open spec fn validate_unfreeze_nft_batch_post(
    pre: Store,
    env: EnvInfo,
    info: ValidatorInfo,
    inner: ValidateUnfreezeNftBatch,
    r: Result<HandleOutcome, BridgeError>,
) -> bool {
    let authorized = sig_authorizes(
        pre.state,
        env.contract_address@,
        info,
        label_validate_unfreeze_nft_batch(),
        enc_validate_unfreeze_nft_batch(inner),
    );
    &&& (pre.state.paused ==> r == Err::<HandleOutcome, BridgeError>(BridgeError::Paused))
    &&& (!pre.state.paused ==> {
        &&& (pre.action_consumed(info.action_id) ==> r == Err::<HandleOutcome, BridgeError>(
            BridgeError::DuplicateAction,
        ))
        &&& (!pre.action_consumed(info.action_id) && !authorized ==> r == Err::<
            HandleOutcome,
            BridgeError,
        >(BridgeError::Unauthorized))
        &&& (!pre.action_consumed(info.action_id) && authorized ==> (r matches Ok(o) && (o
            matches HandleOutcome::Done(h) && {
            &&& h.store.state == pre.state
            &&& bridge_table_extended(pre, h.store, info.action_id)
            &&& h.messages@.len() == inner.unfreeze_args@.len()
            &&& forall|i: int|
                0 <= i < inner.unfreeze_args@.len() ==> (#[trigger] h.messages@[i] matches
                    OutMsg::TransferNft { recipient, token_id, contract_hash, contract } && (
                recipient@ == inner.to@ && token_id@ == inner.unfreeze_args@[i].token_id@
                    && contract_hash@ == inner.unfreeze_args@[i].contract_hash@ && contract@
                    == inner.unfreeze_args@[i].contract@))
            &&& h.log@.len() == 0
        })))
    })
}

/// Release a batch of custodied NFTs, under one validator signature.
pub fn validate_unfreeze_nft_batch(
    store: &Store,
    env: &EnvInfo,
    info: &ValidatorInfo,
    inner: ValidateUnfreezeNftBatch,
) -> (r: Result<HandleOutcome, BridgeError>)
    requires
        env.contract_address@.len() <= max_enc_len(),
        validate_unfreeze_nft_batch_wf(inner),
    ensures
        validate_unfreeze_nft_batch_post(*store, *env, *info, inner, r),
{
    if store.state.paused {
        return Err(BridgeError::Paused);
    }
    let mut st = clone_store(store);
    let state = st.config_read();
    let payload = encode_validate_unfreeze_nft_batch(&inner);
    match require_sig(
        &mut st,
        env,
        state,
        info,
        label_validate_unfreeze_nft_batch_bytes(),
        payload,
    ) {
        Ok(()) => {
            let mut messages: Vec<OutMsg> = Vec::new();
            let mut i: usize = 0;
            while i < inner.unfreeze_args.len()
                invariant
                    i <= inner.unfreeze_args.len(),
                    messages@.len() == i,
                    forall|k: int|
                        0 <= k < i ==> (#[trigger] messages@[k] matches OutMsg::TransferNft {
                            recipient,
                            token_id,
                            contract_hash,
                            contract,
                        } && (recipient@ == inner.to@ && token_id@
                            == inner.unfreeze_args@[k].token_id@ && contract_hash@
                            == inner.unfreeze_args@[k].contract_hash@ && contract@
                            == inner.unfreeze_args@[k].contract@)),
                decreases inner.unfreeze_args.len() - i,
            {
                let a = &inner.unfreeze_args[i];
                messages.push(
                    OutMsg::TransferNft {
                        recipient: clone_bytes(&inner.to),
                        token_id: clone_bytes(&a.token_id),
                        contract_hash: clone_bytes(&a.contract_hash),
                        contract: clone_bytes(&a.contract),
                    },
                );
                i = i + 1;
            }
            Ok(HandleOutcome::Done(HandleOk { store: st, messages, log: Vec::new() }))
        },
        Err(e) => Err(e),
    }
}

/// What the policy step of a freeze does: gated by the pause flag, the fee
/// and the whitelist; on success the event counter is incremented exactly
/// once, the allocated action id equals the counter before the increment, and
/// nothing else changes. On failure nothing changes at all — in particular no
/// collaborator call is requested and no event is emitted.
pub open spec fn freeze_nft_prepare_post(
    pre: Store,
    env: EnvInfo,
    contract: Seq<u8>,
    r: Result<HandleOutcome, BridgeError>,
) -> bool {
    &&& (pre.state.paused ==> r == Err::<HandleOutcome, BridgeError>(BridgeError::Paused))
    &&& (!pre.state.paused && spec_tx_fee(env.sent_funds@) is None ==> r == Err::<
        HandleOutcome,
        BridgeError,
    >(BridgeError::FeeRequired))
    &&& (!pre.state.paused && spec_tx_fee(env.sent_funds@) is Some && !pre.spec_whitelisted(
        contract,
    ) ==> r == Err::<HandleOutcome, BridgeError>(BridgeError::NotWhitelisted))
    &&& (!pre.state.paused && spec_tx_fee(env.sent_funds@) is Some && pre.spec_whitelisted(
        contract,
    ) ==> (r matches Ok(o) && (o matches HandleOutcome::NeedsCollaborator(p) && {
        &&& p.act_id == pre.state.event_cnt
        &&& Option::Some(p.fee) == spec_tx_fee(env.sent_funds@)
        &&& p.store.state == (State {
            event_cnt: (pre.state.event_cnt + 1) as u128,
            ..pre.state
        })
        &&& p.store.actions@ == pre.actions@
        &&& p.store.actions_config@ == pre.actions_config@
        &&& p.store.wl() == pre.wl()
    })))
}

/// Policy step of a freeze: check the pause gate, allocate the action id,
/// collect the fee and check the whitelist. The host must then query the
/// collaborator for the token dossiers and call the matching finishing step.
pub fn freeze_nft_prepare(store: &Store, env: &EnvInfo, contract: &Vec<u8>) -> (r: Result<
    HandleOutcome,
    BridgeError,
>)
    requires
        store.state.event_cnt < u128::MAX,
    ensures
        freeze_nft_prepare_post(*store, *env, contract@, r),
{
    if store.state.paused {
        return Err(BridgeError::Paused);
    }
    let mut st = clone_store(store);
    let act_id = action_id(&mut st);
    let fee = match tx_fee(env) {
        Ok(f) => f,
        Err(e) => {
            return Err(e);
        },
    };
    if !st.whitelisted_read(contract) {
        return Err(BridgeError::NotWhitelisted);
    }
    Ok(HandleOutcome::NeedsCollaborator(PendingMovement { store: st, act_id, fee }))
}

/// What the policy step of a withdraw does: as a freeze, without the
/// whitelist gate.
pub open spec fn withdraw_nft_prepare_post(
    pre: Store,
    env: EnvInfo,
    r: Result<HandleOutcome, BridgeError>,
) -> bool {
    &&& (pre.state.paused ==> r == Err::<HandleOutcome, BridgeError>(BridgeError::Paused))
    &&& (!pre.state.paused && spec_tx_fee(env.sent_funds@) is None ==> r == Err::<
        HandleOutcome,
        BridgeError,
    >(BridgeError::FeeRequired))
    &&& (!pre.state.paused && spec_tx_fee(env.sent_funds@) is Some ==> (r matches Ok(o) && (o
        matches HandleOutcome::NeedsCollaborator(p) && {
        &&& p.act_id == pre.state.event_cnt
        &&& Option::Some(p.fee) == spec_tx_fee(env.sent_funds@)
        &&& p.store.state == (State {
            event_cnt: (pre.state.event_cnt + 1) as u128,
            ..pre.state
        })
        &&& p.store.actions@ == pre.actions@
        &&& p.store.actions_config@ == pre.actions_config@
        &&& p.store.wl() == pre.wl()
    })))
}

/// Policy step of a withdraw: check the pause gate, allocate the action id
/// and collect the fee. The host must then query the collaborator for the
/// token dossiers and call the matching finishing step.
pub fn withdraw_nft_prepare(store: &Store, env: &EnvInfo) -> (r: Result<
    HandleOutcome,
    BridgeError,
>)
    requires
        store.state.event_cnt < u128::MAX,
    ensures
        withdraw_nft_prepare_post(*store, *env, r),
{
    if store.state.paused {
        return Err(BridgeError::Paused);
    }
    let mut st = clone_store(store);
    let act_id = action_id(&mut st);
    let fee = match tx_fee(env) {
        Ok(f) => f,
        Err(e) => {
            return Err(e);
        },
    };
    Ok(HandleOutcome::NeedsCollaborator(PendingMovement { store: st, act_id, fee }))
}

/// Finishing step of a single freeze: move custody of the token to this
/// contract and emit the bridge event (carrying the allocated action id) and
/// the transfer-detail record with the token's metadata.
pub fn freeze_nft_finish(
    env: &EnvInfo,
    act_id: u128,
    fee: u128,
    contract: Vec<u8>,
    contract_hash: Vec<u8>,
    token_id: Vec<u8>,
    to: Vec<u8>,
    chain_nonce: u64,
    minter: Vec<u8>,
    dossier: NftDossier,
) -> (r: (Vec<OutMsg>, Vec<LogAttribute>))
    ensures
        r.0@.len() == 1,
        (r.0@[0] matches OutMsg::TransferNft {
            recipient,
            token_id: t,
            contract_hash: ch,
            contract: c,
        } && (recipient@ == env.contract_address@ && t@ == token_id@ && ch@ == contract_hash@ && c@
            == contract@)),
        r.1@.len() == 2,
        r.1@[0].key@ == ev_key_bridge_event_info(),
        r.1@[0].value@ == json_bridge_event_info(
            BridgeEventInfo { action_id: act_id, chain_nonce, tx_fees: fee, to },
        ),
        r.1@[1].key@ == ev_key_transfer_snip721(),
        r.1@[1].value@ == json_transfer_snip721(
            TransferSnip721 {
                contract_addr: contract,
                contract_hash,
                mint_with: minter,
                info: TransferInfo {
                    public_metadata: dossier.public_metadata,
                    private_metadata: dossier.private_metadata,
                    token_id,
                },
            },
        ),
{
    let transfer = OutMsg::TransferNft {
        recipient: clone_bytes(&env.contract_address),
        token_id: clone_bytes(&token_id),
        contract_hash: clone_bytes(&contract_hash),
        contract: clone_bytes(&contract),
    };
    let mut messages: Vec<OutMsg> = Vec::new();
    messages.push(transfer);

    let ev = BridgeEventInfo::new(act_id, chain_nonce, fee, to);
    let a0 = encode_bridge_event_info(&ev);
    let NftDossier { public_metadata, private_metadata } = dossier;
    let detail = TransferSnip721 {
        contract_addr: contract,
        contract_hash,
        mint_with: minter,
        info: TransferInfo { public_metadata, private_metadata, token_id },
    };
    let a1 = encode_transfer_snip721(&detail);
    let mut log: Vec<LogAttribute> = Vec::new();
    log.push(a0);
    log.push(a1);
    (messages, log)
}

/// The transfer-detail of one frozen token: the dossier's metadata and the
/// token id.
pub open spec fn freeze_info_of(d: NftDossier, t: Vec<u8>) -> TransferInfo {
    TransferInfo {
        public_metadata: d.public_metadata,
        private_metadata: d.private_metadata,
        token_id: t,
    }
}

/// The transfer-details of a batch of frozen tokens.
pub open spec fn freeze_infos(ds: Seq<NftDossier>, ts: Seq<Vec<u8>>) -> Seq<TransferInfo> {
    Seq::new(ds.len(), |i: int| freeze_info_of(ds[i], ts[i]))
}

/// Finishing step of a batch freeze: move custody of all tokens in one
/// collaborator call and emit the bridge event plus one batch transfer-detail
/// record carrying every token's metadata.
pub fn freeze_nft_batch_finish(
    env: &EnvInfo,
    act_id: u128,
    fee: u128,
    contract: Vec<u8>,
    contract_hash: Vec<u8>,
    token_ids: Vec<Vec<u8>>,
    to: Vec<u8>,
    chain_nonce: u64,
    minter: Vec<u8>,
    dossiers: Vec<NftDossier>,
) -> (r: (Vec<OutMsg>, Vec<LogAttribute>))
    requires
        dossiers@.len() == token_ids@.len(),
    ensures
        r.0@.len() == 1,
        (r.0@[0] matches OutMsg::BatchTransferNft {
            recipient,
            token_ids: ts,
            contract_hash: ch,
            contract: c,
        } && (recipient@ == env.contract_address@ && ts == token_ids && ch@ == contract_hash@ && c@
            == contract@)),
        r.1@.len() == 2,
        r.1@[0].key@ == ev_key_bridge_event_info(),
        r.1@[0].value@ == json_bridge_event_info(
            BridgeEventInfo { action_id: act_id, chain_nonce, tx_fees: fee, to },
        ),
        r.1@[1].key@ == ev_key_transfer_snip721_batch(),
        r.1@[1].value@ == json_transfer_snip721_batch_parts(
            freeze_infos(dossiers@, token_ids@),
            contract@,
            contract_hash@,
            minter@,
        ),
{
    let mut infos: Vec<TransferInfo> = Vec::new();
    let mut i: usize = 0;
    while i < token_ids.len()
        invariant
            i <= token_ids.len(),
            dossiers@.len() == token_ids@.len(),
            infos@.len() == i,
            forall|k: int|
                0 <= k < i ==> transfer_info_matches(
                    #[trigger] infos@[k],
                    freeze_info_of(dossiers@[k], token_ids@[k]),
                ),
        decreases token_ids.len() - i,
    {
        let d = &dossiers[i];
        infos.push(
            TransferInfo {
                public_metadata: clone_opt_meta(&d.public_metadata),
                private_metadata: clone_opt_meta(&d.private_metadata),
                token_id: clone_bytes(&token_ids[i]),
            },
        );
        i = i + 1;
    }

    let transfer = OutMsg::BatchTransferNft {
        recipient: clone_bytes(&env.contract_address),
        token_ids,
        contract_hash: clone_bytes(&contract_hash),
        contract: clone_bytes(&contract),
    };
    let mut messages: Vec<OutMsg> = Vec::new();
    messages.push(transfer);

    let ev = BridgeEventInfo::new(act_id, chain_nonce, fee, to);
    let a0 = encode_bridge_event_info(&ev);
    let detail = TransferSnip721Batch {
        infos,
        contract_addr: contract,
        contract_hash,
        mint_with: minter,
    };
    let a1 = encode_transfer_snip721_batch(&detail);
    proof {
        lemma_json_transfer_info_list_congruent(
            detail.infos@,
            freeze_infos(dossiers@, token_ids@),
        );
    }
    let mut log: Vec<LogAttribute> = Vec::new();
    log.push(a0);
    log.push(a1);
    (messages, log)
}

/// Whether the collaborator reported a public token URI: without one the
/// origin chain could not identify the custodied asset to release.
pub open spec fn has_uri(d: NftDossier) -> bool {
    d.public_metadata matches Option::Some(m) && m.token_uri is Some
}

/// The reported public token URI; meaningful only under `has_uri`.
pub open spec fn uri_of(d: NftDossier) -> Vec<u8> {
    match d.public_metadata {
        Option::Some(m) => match m.token_uri {
            Option::Some(u) => u,
            Option::None => vstd::pervasive::arbitrary(),
        },
        Option::None => vstd::pervasive::arbitrary(),
    }
}

/// Finishing step of a single withdraw: fails with `Unauthorized` when the
/// token's public URI is absent; otherwise burns the wrapped token and emits
/// the bridge event plus the unfreeze-detail record carrying the URI.
pub fn withdraw_nft_finish(
    act_id: u128,
    fee: u128,
    burner: Vec<u8>,
    burner_hash: Vec<u8>,
    token_id: Vec<u8>,
    to: Vec<u8>,
    chain_nonce: u64,
    dossier: NftDossier,
) -> (r: Result<(Vec<OutMsg>, Vec<LogAttribute>), BridgeError>)
    ensures
        !has_uri(dossier) ==> r == Err::<(Vec<OutMsg>, Vec<LogAttribute>), BridgeError>(
            BridgeError::Unauthorized,
        ),
        has_uri(dossier) ==> (r matches Ok(ml) && {
            &&& ml.0@.len() == 1
            &&& (ml.0@[0] matches OutMsg::BurnNft { token_id: t, contract_hash: ch, contract: c }
                && (t == token_id && ch@ == burner_hash@ && c@ == burner@))
            &&& ml.1@.len() == 2
            &&& ml.1@[0].key@ == ev_key_bridge_event_info()
            &&& ml.1@[0].value@ == json_bridge_event_info(
                BridgeEventInfo { action_id: act_id, chain_nonce, tx_fees: fee, to },
            )
            &&& ml.1@[1].key@ == ev_key_unfreeze_snip721()
            &&& ml.1@[1].value@ == json_unfreeze_snip721(
                UnfreezeSnip721 { token_uri: uri_of(dossier), burner },
            )
        }),
{
    let uri = match dossier.public_metadata {
        Option::Some(m) => match m.token_uri {
            Option::Some(u) => u,
            Option::None => {
                return Err(BridgeError::Unauthorized);
            },
        },
        Option::None => {
            return Err(BridgeError::Unauthorized);
        },
    };
    let burn = OutMsg::BurnNft {
        token_id,
        contract_hash: clone_bytes(&burner_hash),
        contract: clone_bytes(&burner),
    };
    let mut messages: Vec<OutMsg> = Vec::new();
    messages.push(burn);

    let ev = BridgeEventInfo::new(act_id, chain_nonce, fee, to);
    let a0 = encode_bridge_event_info(&ev);
    let detail = UnfreezeSnip721 { token_uri: uri, burner };
    let a1 = encode_unfreeze_snip721(&detail);
    let mut log: Vec<LogAttribute> = Vec::new();
    log.push(a0);
    log.push(a1);
    Ok((messages, log))
}

/// Whether every dossier of a batch reports a public token URI.
pub open spec fn all_have_uri(ds: Seq<NftDossier>) -> bool {
    forall|i: int| 0 <= i < ds.len() ==> #[trigger] has_uri(ds[i])
}

/// The reported URIs of a batch; meaningful only under `all_have_uri`.
pub open spec fn withdraw_uris(ds: Seq<NftDossier>) -> Seq<Seq<u8>> {
    Seq::new(ds.len(), |i: int| uri_of(ds[i])@)
}

/// Finishing step of a batch withdraw: fails with `Unauthorized` when any
/// token's public URI is absent; otherwise burns all wrapped tokens in one
/// collaborator call and emits the bridge event plus one batch
/// unfreeze-detail record carrying every URI.
pub fn withdraw_nft_batch_finish(
    act_id: u128,
    fee: u128,
    burner: Vec<u8>,
    burner_hash: Vec<u8>,
    token_ids: Vec<Vec<u8>>,
    to: Vec<u8>,
    chain_nonce: u64,
    dossiers: Vec<NftDossier>,
) -> (r: Result<(Vec<OutMsg>, Vec<LogAttribute>), BridgeError>)
    ensures
        !all_have_uri(dossiers@) ==> r == Err::<(Vec<OutMsg>, Vec<LogAttribute>), BridgeError>(
            BridgeError::Unauthorized,
        ),
        all_have_uri(dossiers@) ==> (r matches Ok(ml) && {
            &&& ml.0@.len() == 1
            &&& (ml.0@[0] matches OutMsg::BatchBurnNft {
                token_ids: ts,
                contract_hash: ch,
                contract: c,
            } && (ts == token_ids && ch@ == burner_hash@ && c@ == burner@))
            &&& ml.1@.len() == 2
            &&& ml.1@[0].key@ == ev_key_bridge_event_info()
            &&& ml.1@[0].value@ == json_bridge_event_info(
                BridgeEventInfo { action_id: act_id, chain_nonce, tx_fees: fee, to },
            )
            &&& ml.1@[1].key@ == ev_key_unfreeze_snip721_batch()
            &&& ml.1@[1].value@ == json_unfreeze_snip721_batch_parts(
                withdraw_uris(dossiers@),
                burner@,
            )
        }),
{
    let mut uris: Vec<Vec<u8>> = Vec::new();
    let mut i: usize = 0;
    while i < dossiers.len()
        invariant
            i <= dossiers.len(),
            uris@.len() == i,
            forall|k: int| 0 <= k < i ==> #[trigger] has_uri(dossiers@[k]),
            forall|k: int| 0 <= k < i ==> #[trigger] uris@[k]@ == uri_of(dossiers@[k])@,
        decreases dossiers.len() - i,
    {
        match &dossiers[i].public_metadata {
            Option::Some(m) => match &m.token_uri {
                Option::Some(u) => {
                    uris.push(clone_bytes(u));
                },
                Option::None => {
                    proof {
                        assert(!has_uri(dossiers@[i as int]));
                    }
                    return Err(BridgeError::Unauthorized);
                },
            },
            Option::None => {
                proof {
                    assert(!has_uri(dossiers@[i as int]));
                }
                return Err(BridgeError::Unauthorized);
            },
        }
        i = i + 1;
    }

    let burn = OutMsg::BatchBurnNft {
        token_ids,
        contract_hash: clone_bytes(&burner_hash),
        contract: clone_bytes(&burner),
    };
    let mut messages: Vec<OutMsg> = Vec::new();
    messages.push(burn);

    let ev = BridgeEventInfo::new(act_id, chain_nonce, fee, to);
    let a0 = encode_bridge_event_info(&ev);
    let detail = UnfreezeSnip721Batch { token_uris: uris, burner };
    let a1 = encode_unfreeze_snip721_batch(&detail);
    proof {
        assert(Seq::new(detail.token_uris@.len(), |k: int| detail.token_uris@[k]@)
            =~= withdraw_uris(dossiers@));
    }
    let mut log: Vec<LogAttribute> = Vec::new();
    log.push(a0);
    log.push(a1);
    Ok((messages, log))
}

/// One execute call: dispatches to the operation the message names. The
/// signature-gated operations complete in one step; the chain-originating
/// movement operations return the policy step's decision, and the host
/// finishes them with the collaborator's answer through the matching
/// finishing step.
pub fn handle(store: &Store, env: &EnvInfo, msg: HandleMsg) -> (r: Result<
    HandleOutcome,
    BridgeError,
>)
    requires
        env.contract_address@.len() <= max_enc_len(),
        match msg {
            HandleMsg::WithdrawFees { info, inner } => inner.0@.len() <= max_enc_len(),
            HandleMsg::WhitelistNft { info, inner } => inner.0@.len() <= max_enc_len(),
            HandleMsg::ValidateTransferNft { info, inner } => validate_transfer_nft_wf(inner),
            HandleMsg::ValidateTransferNftBatch { info, inner } => validate_transfer_nft_batch_wf(
                inner,
            ),
            HandleMsg::ValidateUnfreezeNft { info, inner } => validate_unfreeze_nft_wf(inner),
            HandleMsg::ValidateUnfreezeNftBatch { info, inner } => validate_unfreeze_nft_batch_wf(
                inner,
            ),
            HandleMsg::FreezeNft { .. } => store.state.event_cnt < u128::MAX,
            HandleMsg::FreezeNftBatch { .. } => store.state.event_cnt < u128::MAX,
            HandleMsg::WithdrawNft { .. } => store.state.event_cnt < u128::MAX,
            HandleMsg::WithdrawNftBatch { .. } => store.state.event_cnt < u128::MAX,
            _ => true,
        },
    ensures
        match msg {
            HandleMsg::SetPause { info, inner } => set_pause_post(*store, *env, info, inner, r),
            HandleMsg::WithdrawFees { info, inner } => withdraw_fees_post(
                *store,
                *env,
                info,
                inner,
                r,
            ),
            HandleMsg::SetGroupKey { info, inner } => set_group_key_post(
                *store,
                *env,
                info,
                inner,
                r,
            ),
            HandleMsg::WhitelistNft { info, inner } => whitelist_nft_post(
                *store,
                *env,
                info,
                inner,
                r,
            ),
            HandleMsg::ValidateTransferNft { info, inner } => validate_transfer_nft_post(
                *store,
                *env,
                info,
                inner,
                r,
            ),
            HandleMsg::ValidateTransferNftBatch { info, inner } => validate_transfer_nft_batch_post(
                *store,
                *env,
                info,
                inner,
                r,
            ),
            HandleMsg::ValidateUnfreezeNft { info, inner } => validate_unfreeze_nft_post(
                *store,
                *env,
                info,
                inner,
                r,
            ),
            HandleMsg::ValidateUnfreezeNftBatch { info, inner } => validate_unfreeze_nft_batch_post(
                *store,
                *env,
                info,
                inner,
                r,
            ),
            HandleMsg::FreezeNft { contract, .. } => freeze_nft_prepare_post(
                *store,
                *env,
                contract@,
                r,
            ),
            HandleMsg::FreezeNftBatch { contract, .. } => freeze_nft_prepare_post(
                *store,
                *env,
                contract@,
                r,
            ),
            HandleMsg::WithdrawNft { .. } => withdraw_nft_prepare_post(*store, *env, r),
            HandleMsg::WithdrawNftBatch { .. } => withdraw_nft_prepare_post(*store, *env, r),
        },
{
    match msg {
        HandleMsg::SetPause { info, inner } => set_pause(store, env, &info, inner),
        HandleMsg::WithdrawFees { info, inner } => withdraw_fees(store, env, &info, inner),
        HandleMsg::SetGroupKey { info, inner } => set_group_key(store, env, &info, inner),
        HandleMsg::WhitelistNft { info, inner } => whitelist_nft(store, env, &info, inner),
        HandleMsg::ValidateTransferNft { info, inner } => validate_transfer_nft(
            store,
            env,
            &info,
            inner,
        ),
        HandleMsg::ValidateTransferNftBatch { info, inner } => validate_transfer_nft_batch(
            store,
            env,
            &info,
            inner,
        ),
        HandleMsg::ValidateUnfreezeNft { info, inner } => validate_unfreeze_nft(
            store,
            env,
            &info,
            inner,
        ),
        HandleMsg::ValidateUnfreezeNftBatch { info, inner } => validate_unfreeze_nft_batch(
            store,
            env,
            &info,
            inner,
        ),
        HandleMsg::FreezeNft { contract, .. } => freeze_nft_prepare(store, env, &contract),
        HandleMsg::FreezeNftBatch { contract, .. } => freeze_nft_prepare(store, env, &contract),
        HandleMsg::WithdrawNft { .. } => withdraw_nft_prepare(store, env),
        HandleMsg::WithdrawNftBatch { .. } => withdraw_nft_prepare(store, env),
    }
}

/// Law: pausing and then unpausing, each under its own validator signature,
/// restores full operability. The two action ids are necessarily distinct,
/// the final configuration is the starting one with the pause flag clear, and
/// nothing else changed but the two consumed config-action ids — so every
/// operation that was possible before the toggle is possible after it.
pub proof fn lemma_pause_toggle_restores(
    pre: Store,
    env: EnvInfo,
    info1: ValidatorInfo,
    info2: ValidatorInfo,
    h1: HandleOk,
    h2: HandleOk,
)
    requires
        set_pause_post(pre, env, info1, SetPause(true), Ok(HandleOutcome::Done(h1))),
        set_pause_post(h1.store, env, info2, SetPause(false), Ok(HandleOutcome::Done(h2))),
    ensures
        info1.action_id != info2.action_id,
        h2.store.state == (State { paused: false, ..pre.state }),
        h2.store.state.paused == false,
        h2.store.actions@ == pre.actions@,
        h2.store.wl() == pre.wl(),
        forall|j: u128|
            h2.store.action_config_consumed(j) <==> pre.action_config_consumed(j) || j
                == info1.action_id || j == info2.action_id,
{
    assert(h1.store.action_config_consumed(info1.action_id));
}

} // verus!
