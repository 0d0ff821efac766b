//! The external interface of the bridge: initialization, execute and query
//! messages, the signed-action envelope, and the canonical encoding of each
//! signed payload.
//!
//! Addresses, token ids, hashes and URIs are carried as byte strings; the host
//! edge converts to and from its own text types.
use vstd::prelude::*;
use crate::encode::{
    enc_bool, enc_bytes, enc_u128, enc_u32, enc_u64, lemma_bytes_field, lemma_concat_parts,
    lemma_u128_field, lemma_u64_field, max_enc_len, push_array32, push_bool, push_bytes, push_raw,
    push_u128, push_u32, push_u64,
};
use crate::util::clone_bytes;

verus! {

/// A native-currency payment attached to a call.
pub struct Coin {
    pub denom: Vec<u8>,
    pub amount: u128,
}

/// What the host tells the core about the current invocation: this contract's
/// own canonical address and the funds the caller attached.
pub struct EnvInfo {
    pub contract_address: Vec<u8>,
    pub sent_funds: Vec<Coin>,
}

/// Seeds the configuration and the initial whitelist.
pub struct InitMsg {
    pub group_key: [u8; 32],
    pub chain_nonce: u64,
    pub whitelist: Vec<Vec<u8>>,
}

/// A 64-byte Ed25519 signature produced by the validator quorum.
pub struct Sig(pub [u8; 64]);

/// The validator-supplied authorization of one action: the externally chosen
/// action id and the signature over the canonical action message.
pub struct ValidatorInfo {
    pub action_id: u128,
    pub sig: Sig,
}

/// Sets the pause flag.
pub struct SetPause(pub bool);

/// Moves the contract's whole fee balance to the given address.
pub struct WithdrawFees(pub Vec<u8>);

/// Rotates the group key.
pub struct SetGroupKey(pub [u8; 32]);

/// Whitelists a remote NFT contract as a freeze source.
pub struct WhitelistNft(pub Vec<u8>);

/// One wrapped-NFT mint: which minter contract to use, the metadata reference
/// and the token id to mint.
pub struct MintArgs {
    pub minter: Vec<u8>,
    pub minter_hash: Vec<u8>,
    pub token_uri: Vec<u8>,
    pub token_id: Vec<u8>,
}

/// Releases a wrapped NFT on this chain by minting it to `to`.
pub struct ValidateTransferNft {
    pub mint_args: MintArgs,
    pub to: Vec<u8>,
}

/// Batch variant of `ValidateTransferNft`; all mints go to `to`.
pub struct ValidateTransferNftBatch {
    pub mint_args: Vec<MintArgs>,
    pub to: Vec<u8>,
}

/// One custodied token to release: the NFT contract, its code hash and the
/// token id held by the bridge.
pub struct UnfreezeArgs {
    pub contract: Vec<u8>,
    pub contract_hash: Vec<u8>,
    pub token_id: Vec<u8>,
}

/// Releases a natively-held NFT out of custody to `to`.
pub struct ValidateUnfreezeNft {
    pub unfreeze_args: UnfreezeArgs,
    pub to: Vec<u8>,
}

/// Batch variant of `ValidateUnfreezeNft`.
pub struct ValidateUnfreezeNftBatch {
    pub unfreeze_args: Vec<UnfreezeArgs>,
    pub to: Vec<u8>,
}

/// The tagged union of every operation the bridge executes.
pub enum HandleMsg {
    SetPause { info: ValidatorInfo, inner: SetPause },
    WithdrawFees { info: ValidatorInfo, inner: WithdrawFees },
    SetGroupKey { info: ValidatorInfo, inner: SetGroupKey },
    WhitelistNft { info: ValidatorInfo, inner: WhitelistNft },
    ValidateTransferNft { info: ValidatorInfo, inner: ValidateTransferNft },
    ValidateTransferNftBatch { info: ValidatorInfo, inner: ValidateTransferNftBatch },
    ValidateUnfreezeNft { info: ValidatorInfo, inner: ValidateUnfreezeNft },
    ValidateUnfreezeNftBatch { info: ValidatorInfo, inner: ValidateUnfreezeNftBatch },
    FreezeNft {
        contract: Vec<u8>,
        contract_hash: Vec<u8>,
        token_id: Vec<u8>,
        to: Vec<u8>,
        chain_nonce: u64,
        minter: Vec<u8>,
    },
    FreezeNftBatch {
        contract: Vec<u8>,
        contract_hash: Vec<u8>,
        token_ids: Vec<Vec<u8>>,
        to: Vec<u8>,
        chain_nonce: u64,
        minter: Vec<u8>,
    },
    WithdrawNft {
        burner: Vec<u8>,
        burner_hash: Vec<u8>,
        token_id: Vec<u8>,
        to: Vec<u8>,
        chain_nonce: u64,
    },
    WithdrawNftBatch {
        burner: Vec<u8>,
        burner_hash: Vec<u8>,
        token_ids: Vec<Vec<u8>>,
        to: Vec<u8>,
        chain_nonce: u64,
    },
}

/// Read-only accessors over the store.
pub enum QueryMsg {
    GetGroupKey,
    GetPaused,
    GetChainNonce,
    GetEventCnt,
    GetWhitelisted { addr: Vec<u8> },
    GetActionConsumed { action: u128 },
    GetActionConfigConsumed { action: u128 },
}

/// The canonical payload that is hashed and signed: it binds the action to
/// this chain, this contract instance, the chosen action id and the encoded
/// operation payload.
pub struct BridgeAction {
    pub chain_nonce: u64,
    pub sc_addr: Vec<u8>,
    pub action_id: u128,
    pub inner: Vec<u8>,
}

impl BridgeAction {
    /// The canonical action for this contract instance.
    pub fn new(env: &EnvInfo, action_id: u128, chain_nonce: u64, inner: Vec<u8>) -> (r:
        BridgeAction)
        ensures
            r.chain_nonce == chain_nonce,
            r.sc_addr@ == env.contract_address@,
            r.action_id == action_id,
            r.inner == inner,
    {
        BridgeAction { chain_nonce, sc_addr: clone_bytes(&env.contract_address), action_id, inner }
    }
}

/// The encoded bytes of a `BridgeAction`: chain nonce, contract address,
/// action id and the already-encoded operation payload, in that order.
pub open spec fn bridge_action_bytes(
    chain_nonce: u64,
    sc_addr: Seq<u8>,
    action_id: u128,
    inner: Seq<u8>,
) -> Seq<u8> {
    enc_u64(chain_nonce) + enc_bytes(sc_addr) + enc_u128(action_id) + inner
}

/// The bytes that are hashed and signed: the domain-separation label followed
/// by the encoded action.
pub open spec fn auth_message(
    context: Seq<u8>,
    chain_nonce: u64,
    sc_addr: Seq<u8>,
    action_id: u128,
    inner: Seq<u8>,
) -> Seq<u8> {
    context + bridge_action_bytes(chain_nonce, sc_addr, action_id, inner)
}

/// Encode a canonical action.
pub fn encode_bridge_action(a: &BridgeAction) -> (r: Vec<u8>)
    requires
        a.sc_addr@.len() <= max_enc_len(),
    ensures
        r@ == bridge_action_bytes(a.chain_nonce, a.sc_addr@, a.action_id, a.inner@),
{
    let mut r: Vec<u8> = Vec::new();
    push_u64(&mut r, a.chain_nonce);
    push_bytes(&mut r, &a.sc_addr);
    push_u128(&mut r, a.action_id);
    push_raw(&mut r, &a.inner);
    proof {
        assert(r@ =~= bridge_action_bytes(a.chain_nonce, a.sc_addr@, a.action_id, a.inner@));
    }
    r
}

/// Field-length bounds under which `MintArgs` can be encoded.
pub open spec fn mint_args_wf(m: MintArgs) -> bool {
    &&& m.minter@.len() <= max_enc_len()
    &&& m.minter_hash@.len() <= max_enc_len()
    &&& m.token_uri@.len() <= max_enc_len()
    &&& m.token_id@.len() <= max_enc_len()
}

/// The encoded bytes of one `MintArgs` record: its fields in order.
pub open spec fn enc_mint_args(m: MintArgs) -> Seq<u8> {
    enc_bytes(m.minter@) + enc_bytes(m.minter_hash@) + enc_bytes(m.token_uri@) + enc_bytes(
        m.token_id@,
    )
}

/// The concatenated encodings of a list of `MintArgs`.
pub open spec fn enc_mint_args_list(s: Seq<MintArgs>) -> Seq<u8>
    decreases s.len(),
{
    if s.len() == 0 {
        Seq::empty()
    } else {
        enc_mint_args_list(s.drop_last()) + enc_mint_args(s.last())
    }
}

/// Field-length bounds under which `UnfreezeArgs` can be encoded.
pub open spec fn unfreeze_args_wf(a: UnfreezeArgs) -> bool {
    &&& a.contract@.len() <= max_enc_len()
    &&& a.contract_hash@.len() <= max_enc_len()
    &&& a.token_id@.len() <= max_enc_len()
}

/// The encoded bytes of one `UnfreezeArgs` record: its fields in order.
pub open spec fn enc_unfreeze_args(a: UnfreezeArgs) -> Seq<u8> {
    enc_bytes(a.contract@) + enc_bytes(a.contract_hash@) + enc_bytes(a.token_id@)
}

/// The concatenated encodings of a list of `UnfreezeArgs`.
pub open spec fn enc_unfreeze_args_list(s: Seq<UnfreezeArgs>) -> Seq<u8>
    decreases s.len(),
{
    if s.len() == 0 {
        Seq::empty()
    } else {
        enc_unfreeze_args_list(s.drop_last()) + enc_unfreeze_args(s.last())
    }
}

/// The canonical payload bytes of `SetPause`.
pub open spec fn enc_set_pause(p: SetPause) -> Seq<u8> {
    enc_bool(p.0)
}

/// The canonical payload bytes of `WithdrawFees`.
pub open spec fn enc_withdraw_fees(p: WithdrawFees) -> Seq<u8> {
    enc_bytes(p.0@)
}

/// The canonical payload bytes of `SetGroupKey`: the 32 raw key bytes.
pub open spec fn enc_set_group_key(p: SetGroupKey) -> Seq<u8> {
    p.0@
}

/// The canonical payload bytes of `WhitelistNft`.
pub open spec fn enc_whitelist_nft(p: WhitelistNft) -> Seq<u8> {
    enc_bytes(p.0@)
}

/// Field-length bounds under which `ValidateTransferNft` can be encoded.
pub open spec fn validate_transfer_nft_wf(p: ValidateTransferNft) -> bool {
    mint_args_wf(p.mint_args) && p.to@.len() <= max_enc_len()
}

/// The canonical payload bytes of `ValidateTransferNft`.
pub open spec fn enc_validate_transfer_nft(p: ValidateTransferNft) -> Seq<u8> {
    enc_mint_args(p.mint_args) + enc_bytes(p.to@)
}

/// Field-length bounds under which `ValidateTransferNftBatch` can be encoded.
pub open spec fn validate_transfer_nft_batch_wf(p: ValidateTransferNftBatch) -> bool {
    &&& p.mint_args@.len() <= max_enc_len()
    &&& p.to@.len() <= max_enc_len()
    &&& forall|k: int| 0 <= k < p.mint_args@.len() ==> mint_args_wf(#[trigger] p.mint_args@[k])
}

/// The canonical payload bytes of `ValidateTransferNftBatch`: the element
/// count, the elements, then the destination.
pub open spec fn enc_validate_transfer_nft_batch(p: ValidateTransferNftBatch) -> Seq<u8> {
    enc_u32(p.mint_args@.len() as u32) + enc_mint_args_list(p.mint_args@) + enc_bytes(p.to@)
}

/// Field-length bounds under which `ValidateUnfreezeNft` can be encoded.
pub open spec fn validate_unfreeze_nft_wf(p: ValidateUnfreezeNft) -> bool {
    unfreeze_args_wf(p.unfreeze_args) && p.to@.len() <= max_enc_len()
}

/// The canonical payload bytes of `ValidateUnfreezeNft`.
pub open spec fn enc_validate_unfreeze_nft(p: ValidateUnfreezeNft) -> Seq<u8> {
    enc_unfreeze_args(p.unfreeze_args) + enc_bytes(p.to@)
}

/// Field-length bounds under which `ValidateUnfreezeNftBatch` can be encoded.
pub open spec fn validate_unfreeze_nft_batch_wf(p: ValidateUnfreezeNftBatch) -> bool {
    &&& p.unfreeze_args@.len() <= max_enc_len()
    &&& p.to@.len() <= max_enc_len()
    &&& forall|k: int|
        0 <= k < p.unfreeze_args@.len() ==> unfreeze_args_wf(#[trigger] p.unfreeze_args@[k])
}

/// The canonical payload bytes of `ValidateUnfreezeNftBatch`.
pub open spec fn enc_validate_unfreeze_nft_batch(p: ValidateUnfreezeNftBatch) -> Seq<u8> {
    enc_u32(p.unfreeze_args@.len() as u32) + enc_unfreeze_args_list(p.unfreeze_args@) + enc_bytes(
        p.to@,
    )
}

/// Appends the encoding of one `MintArgs` record.
pub fn push_mint_args(out: &mut Vec<u8>, m: &MintArgs)
    requires
        mint_args_wf(*m),
    ensures
        final(out)@ == old(out)@ + enc_mint_args(*m),
{
    push_bytes(out, &m.minter);
    push_bytes(out, &m.minter_hash);
    push_bytes(out, &m.token_uri);
    push_bytes(out, &m.token_id);
    proof {
        assert(out@ =~= old(out)@ + enc_mint_args(*m));
    }
}

/// Appends the encoding of one `UnfreezeArgs` record.
pub fn push_unfreeze_args(out: &mut Vec<u8>, a: &UnfreezeArgs)
    requires
        unfreeze_args_wf(*a),
    ensures
        final(out)@ == old(out)@ + enc_unfreeze_args(*a),
{
    push_bytes(out, &a.contract);
    push_bytes(out, &a.contract_hash);
    push_bytes(out, &a.token_id);
    proof {
        assert(out@ =~= old(out)@ + enc_unfreeze_args(*a));
    }
}

/// Encode a `SetPause` payload.
pub fn encode_set_pause(p: &SetPause) -> (r: Vec<u8>)
    ensures
        r@ == enc_set_pause(*p),
{
    let mut r: Vec<u8> = Vec::new();
    push_bool(&mut r, p.0);
    proof {
        assert(r@ =~= enc_set_pause(*p));
    }
    r
}

/// Encode a `WithdrawFees` payload.
pub fn encode_withdraw_fees(p: &WithdrawFees) -> (r: Vec<u8>)
    requires
        p.0@.len() <= max_enc_len(),
    ensures
        r@ == enc_withdraw_fees(*p),
{
    let mut r: Vec<u8> = Vec::new();
    push_bytes(&mut r, &p.0);
    proof {
        assert(r@ =~= enc_withdraw_fees(*p));
    }
    r
}

/// Encode a `SetGroupKey` payload.
pub fn encode_set_group_key(p: &SetGroupKey) -> (r: Vec<u8>)
    ensures
        r@ == enc_set_group_key(*p),
{
    let mut r: Vec<u8> = Vec::new();
    push_array32(&mut r, &p.0);
    proof {
        assert(r@ =~= enc_set_group_key(*p));
    }
    r
}

/// Encode a `WhitelistNft` payload.
pub fn encode_whitelist_nft(p: &WhitelistNft) -> (r: Vec<u8>)
    requires
        p.0@.len() <= max_enc_len(),
    ensures
        r@ == enc_whitelist_nft(*p),
{
    let mut r: Vec<u8> = Vec::new();
    push_bytes(&mut r, &p.0);
    proof {
        assert(r@ =~= enc_whitelist_nft(*p));
    }
    r
}

/// Encode a `ValidateTransferNft` payload.
pub fn encode_validate_transfer_nft(p: &ValidateTransferNft) -> (r: Vec<u8>)
    requires
        validate_transfer_nft_wf(*p),
    ensures
        r@ == enc_validate_transfer_nft(*p),
{
    let mut r: Vec<u8> = Vec::new();
    push_mint_args(&mut r, &p.mint_args);
    push_bytes(&mut r, &p.to);
    proof {
        assert(r@ =~= enc_validate_transfer_nft(*p));
    }
    r
}

/// Encode a `ValidateTransferNftBatch` payload.
pub fn encode_validate_transfer_nft_batch(p: &ValidateTransferNftBatch) -> (r: Vec<u8>)
    requires
        validate_transfer_nft_batch_wf(*p),
    ensures
        r@ == enc_validate_transfer_nft_batch(*p),
{
    let mut r: Vec<u8> = Vec::new();
    push_u32(&mut r, p.mint_args.len() as u32);
    let mut i: usize = 0;
    while i < p.mint_args.len()
        invariant
            i <= p.mint_args.len(),
            validate_transfer_nft_batch_wf(*p),
            r@ == enc_u32(p.mint_args@.len() as u32) + enc_mint_args_list(
                p.mint_args@.take(i as int),
            ),
        decreases p.mint_args.len() - i,
    {
        push_mint_args(&mut r, &p.mint_args[i]);
        i = i + 1;
        proof {
            let t = p.mint_args@.take(i as int);
            assert(t.drop_last() =~= p.mint_args@.take(i - 1));
            assert(t.last() == p.mint_args@[i - 1]);
            assert(r@ =~= enc_u32(p.mint_args@.len() as u32) + enc_mint_args_list(t));
        }
    }
    proof {
        assert(p.mint_args@.take(p.mint_args@.len() as int) =~= p.mint_args@);
    }
    push_bytes(&mut r, &p.to);
    proof {
        assert(r@ =~= enc_validate_transfer_nft_batch(*p));
    }
    r
}

/// Encode a `ValidateUnfreezeNft` payload.
pub fn encode_validate_unfreeze_nft(p: &ValidateUnfreezeNft) -> (r: Vec<u8>)
    requires
        validate_unfreeze_nft_wf(*p),
    ensures
        r@ == enc_validate_unfreeze_nft(*p),
{
    let mut r: Vec<u8> = Vec::new();
    push_unfreeze_args(&mut r, &p.unfreeze_args);
    push_bytes(&mut r, &p.to);
    proof {
        assert(r@ =~= enc_validate_unfreeze_nft(*p));
    }
    r
}

/// Encode a `ValidateUnfreezeNftBatch` payload.
pub fn encode_validate_unfreeze_nft_batch(p: &ValidateUnfreezeNftBatch) -> (r: Vec<u8>)
    requires
        validate_unfreeze_nft_batch_wf(*p),
    ensures
        r@ == enc_validate_unfreeze_nft_batch(*p),
{
    let mut r: Vec<u8> = Vec::new();
    push_u32(&mut r, p.unfreeze_args.len() as u32);
    let mut i: usize = 0;
    while i < p.unfreeze_args.len()
        invariant
            i <= p.unfreeze_args.len(),
            validate_unfreeze_nft_batch_wf(*p),
            r@ == enc_u32(p.unfreeze_args@.len() as u32) + enc_unfreeze_args_list(
                p.unfreeze_args@.take(i as int),
            ),
        decreases p.unfreeze_args.len() - i,
    {
        push_unfreeze_args(&mut r, &p.unfreeze_args[i]);
        i = i + 1;
        proof {
            let t = p.unfreeze_args@.take(i as int);
            assert(t.drop_last() =~= p.unfreeze_args@.take(i - 1));
            assert(t.last() == p.unfreeze_args@[i - 1]);
            assert(r@ =~= enc_u32(p.unfreeze_args@.len() as u32) + enc_unfreeze_args_list(t));
        }
    }
    proof {
        assert(p.unfreeze_args@.take(p.unfreeze_args@.len() as int) =~= p.unfreeze_args@);
    }
    push_bytes(&mut r, &p.to);
    proof {
        assert(r@ =~= enc_validate_unfreeze_nft_batch(*p));
    }
    r
}

/// The encoded action determines every one of its fields: two actions encode
/// to the same bytes only if they agree on the chain nonce, the contract
/// address, the action id and every byte of the payload.
pub proof fn lemma_bridge_action_injective(
    n1: u64,
    a1: Seq<u8>,
    i1: u128,
    p1: Seq<u8>,
    n2: u64,
    a2: Seq<u8>,
    i2: u128,
    p2: Seq<u8>,
)
    requires
        bridge_action_bytes(n1, a1, i1, p1) == bridge_action_bytes(n2, a2, i2, p2),
        a1.len() <= max_enc_len(),
        a2.len() <= max_enc_len(),
    ensures
        n1 == n2,
        a1 == a2,
        i1 == i2,
        p1 == p2,
{
    assert(bridge_action_bytes(n1, a1, i1, p1) =~= enc_u64(n1) + (enc_bytes(a1) + (enc_u128(i1)
        + p1)));
    assert(bridge_action_bytes(n2, a2, i2, p2) =~= enc_u64(n2) + (enc_bytes(a2) + (enc_u128(i2)
        + p2)));
    lemma_u64_field(n1, enc_bytes(a1) + (enc_u128(i1) + p1), n2, enc_bytes(a2) + (enc_u128(i2)
        + p2));
    lemma_bytes_field(a1, enc_u128(i1) + p1, a2, enc_u128(i2) + p2);
    lemma_u128_field(i1, p1, i2, p2);
}

/// Within one operation kind (equal-length context labels), the signed
/// message determines the label and every field of the action: altering the
/// label, the chain nonce, the contract address, the action id or any byte of
/// the payload changes the hashed message.
pub proof fn lemma_auth_message_injective(
    c1: Seq<u8>,
    n1: u64,
    a1: Seq<u8>,
    i1: u128,
    p1: Seq<u8>,
    c2: Seq<u8>,
    n2: u64,
    a2: Seq<u8>,
    i2: u128,
    p2: Seq<u8>,
)
    requires
        auth_message(c1, n1, a1, i1, p1) == auth_message(c2, n2, a2, i2, p2),
        c1.len() == c2.len(),
        a1.len() <= max_enc_len(),
        a2.len() <= max_enc_len(),
    ensures
        c1 == c2,
        n1 == n2,
        a1 == a2,
        i1 == i2,
        p1 == p2,
{
    lemma_concat_parts(
        c1,
        bridge_action_bytes(n1, a1, i1, p1),
        c2,
        bridge_action_bytes(n2, a2, i2, p2),
    );
    lemma_bridge_action_injective(n1, a1, i1, p1, n2, a2, i2, p2);
}

/// The transfer label is a prefix of its batch variant, so the general
/// domain-separation argument does not apply to that pair. It still holds
/// whenever the single-transfer chain nonce fits 32 bits: the byte of the
/// message where the batch label reads letters, the single message reads a
/// zero of the nonce's upper half.
pub proof fn lemma_transfer_labels_separated(
    n1: u64,
    a1: Seq<u8>,
    i1: u128,
    p1: Seq<u8>,
    n2: u64,
    a2: Seq<u8>,
    i2: u128,
    p2: Seq<u8>,
)
    requires
        n1 < 0x1_0000_0000,
    ensures
        auth_message(crate::labels::label_validate_transfer_nft(), n1, a1, i1, p1)
            != auth_message(crate::labels::label_validate_transfer_nft_batch(), n2, a2, i2, p2),
{
    let m1 = auth_message(crate::labels::label_validate_transfer_nft(), n1, a1, i1, p1);
    let m2 = auth_message(crate::labels::label_validate_transfer_nft_batch(), n2, a2, i2, p2);
    if m1 == m2 {
        assert((n1 >> 32) as u8 == 0) by (bit_vector)
            requires
                n1 < 0x1_0000_0000,
        ;
        assert(m1[23] == enc_u64(n1)[4]);
        assert(m2[23] == 104);
    }
}

/// As `lemma_transfer_labels_separated`, for the unfreeze label pair.
pub proof fn lemma_unfreeze_labels_separated(
    n1: u64,
    a1: Seq<u8>,
    i1: u128,
    p1: Seq<u8>,
    n2: u64,
    a2: Seq<u8>,
    i2: u128,
    p2: Seq<u8>,
)
    requires
        n1 < 0x1_0000_0000,
    ensures
        auth_message(crate::labels::label_validate_unfreeze_nft(), n1, a1, i1, p1)
            != auth_message(crate::labels::label_validate_unfreeze_nft_batch(), n2, a2, i2, p2),
{
    let m1 = auth_message(crate::labels::label_validate_unfreeze_nft(), n1, a1, i1, p1);
    let m2 = auth_message(crate::labels::label_validate_unfreeze_nft_batch(), n2, a2, i2, p2);
    if m1 == m2 {
        assert((n1 >> 32) as u8 == 0) by (bit_vector)
            requires
                n1 < 0x1_0000_0000,
        ;
        assert(m1[23] == enc_u64(n1)[4]);
        assert(m2[23] == 104);
    }
}

/// Two operation kinds whose labels are not prefixes of one another can never
/// produce the same signed message, whatever their payloads: a signature for
/// one kind cannot be replayed as authorization for another.
pub proof fn lemma_auth_message_domain_separation(
    c1: Seq<u8>,
    n1: u64,
    a1: Seq<u8>,
    i1: u128,
    p1: Seq<u8>,
    c2: Seq<u8>,
    n2: u64,
    a2: Seq<u8>,
    i2: u128,
    p2: Seq<u8>,
)
    requires
        !c1.is_prefix_of(c2),
        !c2.is_prefix_of(c1),
    ensures
        auth_message(c1, n1, a1, i1, p1) != auth_message(c2, n2, a2, i2, p2),
{
    let m1 = auth_message(c1, n1, a1, i1, p1);
    let m2 = auth_message(c2, n2, a2, i2, p2);
    if m1 == m2 {
        if c1.len() <= c2.len() {
            assert forall|i: int| 0 <= i < c1.len() implies c1[i] == c2[i] by {
                assert(m1[i] == c1[i]);
                assert(m2[i] == c2[i]);
            }
            assert(c1 =~= c2.subrange(0, c1.len() as int));
            assert(c1.is_prefix_of(c2));
        } else {
            assert forall|i: int| 0 <= i < c2.len() implies c2[i] == c1[i] by {
                assert(m1[i] == c1[i]);
                assert(m2[i] == c2[i]);
            }
            assert(c2 =~= c1.subrange(0, c2.len() as int));
            assert(c2.is_prefix_of(c1));
        }
    }
}

} // verus!
