//! The action-authorization protocol: canonical message construction, domain
//! separation, hashing, signature verification, and anti-replay bookkeeping.
//!
//! The action id is consumed before the signature is checked. The enclosing
//! invocation is all-or-nothing (the host discards every write when it fails),
//! so at the store level one attempt — valid or not — permanently burns the
//! id for its namespace.
use vstd::prelude::*;
use crate::BridgeError;
use crate::crypto::{ed25519_valid, ed25519_verify, sha512, sha512_of};
use crate::encode::{max_enc_len, push_raw};
use crate::msg::{auth_message, encode_bridge_action, BridgeAction, EnvInfo, ValidatorInfo};
use crate::state::{State, Store};

verus! {

/// Whether `info`'s signature authorizes the payload `inner` under the
/// domain-separation label `context`, for the contract at `sc_addr`, against
/// the configuration snapshot `state`: the signature must verify under the
/// snapshot's group key over the hash of the canonical action message.
pub open spec fn sig_authorizes(
    state: State,
    sc_addr: Seq<u8>,
    info: ValidatorInfo,
    context: Seq<u8>,
    inner: Seq<u8>,
) -> bool {
    ed25519_valid(
        state.group_key@,
        sha512_of(auth_message(context, state.chain_nonce, sc_addr, info.action_id, inner)),
        info.sig.0@,
    )
}

/// What one authorization attempt does. `config_ns` selects the namespace:
/// config actions or bridge actions. The configuration and the whitelist are
/// never touched; the other namespace's table is never touched. A consumed id
/// fails with `DuplicateAction` and changes nothing; a fresh id is consumed
/// unconditionally, and the attempt returns `Ok` exactly when the signature
/// authorizes the action against the snapshot `state`.
pub open spec fn require_sig_post(
    pre: Store,
    post: Store,
    config_ns: bool,
    sc_addr: Seq<u8>,
    state: State,
    info: ValidatorInfo,
    context: Seq<u8>,
    inner: Seq<u8>,
    r: Result<(), BridgeError>,
) -> bool {
    let was = if config_ns {
        pre.action_config_consumed(info.action_id)
    } else {
        pre.action_consumed(info.action_id)
    };
    &&& post.state == pre.state
    &&& post.wl() == pre.wl()
    &&& (if config_ns {
        post.action_config_consumed(info.action_id)
    } else {
        post.action_consumed(info.action_id)
    })
    &&& (was ==> {
        &&& post.actions@ == pre.actions@
        &&& post.actions_config@ == pre.actions_config@
        &&& r == Err::<(), BridgeError>(BridgeError::DuplicateAction)
    })
    &&& (!was ==> {
        &&& (if config_ns {
            &&& post.actions@ == pre.actions@
            &&& post.actions_config@ == pre.actions_config@.push(info.action_id)
            &&& forall|j: u128|
                post.action_config_consumed(j) <==> pre.action_config_consumed(j) || j
                    == info.action_id
        } else {
            &&& post.actions_config@ == pre.actions_config@
            &&& post.actions@ == pre.actions@.push(info.action_id)
            &&& forall|j: u128|
                post.action_consumed(j) <==> pre.action_consumed(j) || j == info.action_id
        })
        &&& (r == Ok::<(), BridgeError>(()) <==> sig_authorizes(
            state,
            sc_addr,
            info,
            context,
            inner,
        ))
        &&& (!sig_authorizes(state, sc_addr, info, context, inner) ==> r == Err::<
            (),
            BridgeError,
        >(BridgeError::Unauthorized))
    })
}

fn require_sig_i(
    store: &mut Store,
    config_ns: bool,
    env: &EnvInfo,
    state: State,
    info: &ValidatorInfo,
    context: Vec<u8>,
    inner: Vec<u8>,
) -> (r: Result<(), BridgeError>)
    requires
        env.contract_address@.len() <= max_enc_len(),
    ensures
        require_sig_post(
            *old(store),
            *final(store),
            config_ns,
            env.contract_address@,
            state,
            *info,
            context@,
            inner@,
            r,
        ),
{
    let consumed = if config_ns {
        store.action_config_read(info.action_id)
    } else {
        store.action_read(info.action_id)
    };
    if consumed {
        return Err(BridgeError::DuplicateAction);
    }
    if config_ns {
        store.action_config(info.action_id);
    } else {
        store.action(info.action_id);
    }

    let ghost inner_view = inner@;
    let action = BridgeAction::new(env, info.action_id, state.chain_nonce, inner);
    let raw_act = encode_bridge_action(&action);

    let mut input = context;
    push_raw(&mut input, &raw_act);
    proof {
        assert(input@ =~= auth_message(
            context@,
            state.chain_nonce,
            env.contract_address@,
            info.action_id,
            inner_view,
        ));
    }

    let hash = sha512(&input);
    if ed25519_verify(&state.group_key, &hash, &info.sig.0) {
        Ok(())
    } else {
        Err(BridgeError::Unauthorized)
    }
}

/// Authorize an action in the bridge-action namespace.
pub fn require_sig(
    store: &mut Store,
    env: &EnvInfo,
    state: State,
    info: &ValidatorInfo,
    context: Vec<u8>,
    inner: Vec<u8>,
) -> (r: Result<(), BridgeError>)
    requires
        env.contract_address@.len() <= max_enc_len(),
    ensures
        require_sig_post(
            *old(store),
            *final(store),
            false,
            env.contract_address@,
            state,
            *info,
            context@,
            inner@,
            r,
        ),
{
    require_sig_i(store, false, env, state, info, context, inner)
}

/// Authorize an action in the config-action namespace.
pub fn require_sig_config(
    store: &mut Store,
    env: &EnvInfo,
    state: State,
    info: &ValidatorInfo,
    context: Vec<u8>,
    inner: Vec<u8>,
) -> (r: Result<(), BridgeError>)
    requires
        env.contract_address@.len() <= max_enc_len(),
    ensures
        require_sig_post(
            *old(store),
            *final(store),
            true,
            env.contract_address@,
            state,
            *info,
            context@,
            inner@,
            r,
        ),
{
    require_sig_i(store, true, env, state, info, context, inner)
}

/// Law: after any authorization attempt for a pair of namespace and action id
/// — even one whose signature was invalid — every later attempt for the same
/// pair fails with `DuplicateAction` and leaves the store unchanged, whatever
/// its payload, label or signature.
pub proof fn lemma_replay_always_duplicate(
    s0: Store,
    s1: Store,
    s2: Store,
    config_ns: bool,
    addr1: Seq<u8>,
    state1: State,
    info1: ValidatorInfo,
    c1: Seq<u8>,
    p1: Seq<u8>,
    r1: Result<(), BridgeError>,
    addr2: Seq<u8>,
    state2: State,
    info2: ValidatorInfo,
    c2: Seq<u8>,
    p2: Seq<u8>,
    r2: Result<(), BridgeError>,
)
    requires
        require_sig_post(s0, s1, config_ns, addr1, state1, info1, c1, p1, r1),
        require_sig_post(s1, s2, config_ns, addr2, state2, info2, c2, p2, r2),
        info2.action_id == info1.action_id,
    ensures
        r2 == Err::<(), BridgeError>(BridgeError::DuplicateAction),
        s2.state == s1.state,
        s2.actions@ == s1.actions@,
        s2.actions_config@ == s1.actions_config@,
        s2.wl() == s1.wl(),
{
}

} // verus!
