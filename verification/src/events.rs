//! The event encoder: serializes the structured bridge events into the
//! key-value log-attribute format the host runtime records and the off-chain
//! relayer consumes. The value of each attribute is a JSON document whose
//! exact bytes are pinned down by the spec functions below.
use vstd::prelude::*;

verus! {

/// One key-value log attribute of the host runtime.
pub struct LogAttribute {
    pub key: Vec<u8>,
    pub value: Vec<u8>,
}

/// The generic bridge-event record emitted by every chain-originating
/// movement operation: which action id it allocated, the destination chain,
/// the fee paid and the recipient on the destination chain.
pub struct BridgeEventInfo {
    pub action_id: u128,
    pub chain_nonce: u64,
    pub tx_fees: u128,
    pub to: Vec<u8>,
}

impl BridgeEventInfo {
    /// Assemble a bridge-event record from its fields.
    pub fn new(action_id: u128, chain_nonce: u64, tx_fees: u128, to: Vec<u8>) -> (r:
        BridgeEventInfo)
        ensures
            r.action_id == action_id,
            r.chain_nonce == chain_nonce,
            r.tx_fees == tx_fees,
            r.to == to,
    {
        BridgeEventInfo { action_id, chain_nonce, tx_fees, to }
    }
}

/// Token metadata as the core reads and reports it: the metadata reference,
/// and an opaque extension document the host edge has already encoded as JSON.
pub struct Meta {
    pub token_uri: Option<Vec<u8>>,
    pub extension: Option<Vec<u8>>,
}

/// What the collaborator NFT contract reports about one token.
pub struct NftDossier {
    pub public_metadata: Option<Meta>,
    pub private_metadata: Option<Meta>,
}

/// Metadata of one frozen token, as carried in the transfer-detail record.
pub struct TransferInfo {
    pub public_metadata: Option<Meta>,
    pub private_metadata: Option<Meta>,
    pub token_id: Vec<u8>,
}

/// Transfer-detail record of a single freeze: the source contract, its code
/// hash, which minter the destination chain should use, and the metadata.
pub struct TransferSnip721 {
    pub contract_addr: Vec<u8>,
    pub contract_hash: Vec<u8>,
    pub mint_with: Vec<u8>,
    pub info: TransferInfo,
}

/// Transfer-detail record of a batch freeze.
pub struct TransferSnip721Batch {
    pub infos: Vec<TransferInfo>,
    pub contract_addr: Vec<u8>,
    pub contract_hash: Vec<u8>,
    pub mint_with: Vec<u8>,
}

/// Unfreeze-detail record of a single withdraw: the burned token's URI and
/// the wrapped-NFT contract it was burned on.
pub struct UnfreezeSnip721 {
    pub token_uri: Vec<u8>,
    pub burner: Vec<u8>,
}

/// Unfreeze-detail record of a batch withdraw.
pub struct UnfreezeSnip721Batch {
    pub token_uris: Vec<Vec<u8>>,
    pub burner: Vec<u8>,
}

/// The ASCII bytes of "action_id".
pub open spec fn k_action_id() -> Seq<u8> {
    seq![97u8, 99, 116, 105, 111, 110, 95, 105, 100]
}

/// The ASCII bytes of "action_id".
pub fn k_action_id_bytes() -> (r: Vec<u8>)
    ensures
        r@ == k_action_id(),
{
    let r: Vec<u8> = vec![97u8, 99, 116, 105, 111, 110, 95, 105, 100];
    proof {
        assert(r@ =~= k_action_id());
    }
    r
}

/// The ASCII bytes of "chain_nonce".
pub open spec fn k_chain_nonce() -> Seq<u8> {
    seq![99u8, 104, 97, 105, 110, 95, 110, 111, 110, 99, 101]
}

/// The ASCII bytes of "chain_nonce".
pub fn k_chain_nonce_bytes() -> (r: Vec<u8>)
    ensures
        r@ == k_chain_nonce(),
{
    let r: Vec<u8> = vec![99u8, 104, 97, 105, 110, 95, 110, 111, 110, 99, 101];
    proof {
        assert(r@ =~= k_chain_nonce());
    }
    r
}

/// The ASCII bytes of "tx_fees".
pub open spec fn k_tx_fees() -> Seq<u8> {
    seq![116u8, 120, 95, 102, 101, 101, 115]
}

/// The ASCII bytes of "tx_fees".
pub fn k_tx_fees_bytes() -> (r: Vec<u8>)
    ensures
        r@ == k_tx_fees(),
{
    let r: Vec<u8> = vec![116u8, 120, 95, 102, 101, 101, 115];
    proof {
        assert(r@ =~= k_tx_fees());
    }
    r
}

/// The ASCII bytes of "to".
pub open spec fn k_to() -> Seq<u8> {
    seq![116u8, 111]
}

/// The ASCII bytes of "to".
pub fn k_to_bytes() -> (r: Vec<u8>)
    ensures
        r@ == k_to(),
{
    let r: Vec<u8> = vec![116u8, 111];
    proof {
        assert(r@ =~= k_to());
    }
    r
}

/// The ASCII bytes of "contract_addr".
pub open spec fn k_contract_addr() -> Seq<u8> {
    seq![99u8, 111, 110, 116, 114, 97, 99, 116, 95, 97, 100, 100, 114]
}

/// The ASCII bytes of "contract_addr".
pub fn k_contract_addr_bytes() -> (r: Vec<u8>)
    ensures
        r@ == k_contract_addr(),
{
    let r: Vec<u8> = vec![99u8, 111, 110, 116, 114, 97, 99, 116, 95, 97, 100, 100, 114];
    proof {
        assert(r@ =~= k_contract_addr());
    }
    r
}

/// The ASCII bytes of "contract_hash".
pub open spec fn k_contract_hash() -> Seq<u8> {
    seq![99u8, 111, 110, 116, 114, 97, 99, 116, 95, 104, 97, 115, 104]
}

/// The ASCII bytes of "contract_hash".
pub fn k_contract_hash_bytes() -> (r: Vec<u8>)
    ensures
        r@ == k_contract_hash(),
{
    let r: Vec<u8> = vec![99u8, 111, 110, 116, 114, 97, 99, 116, 95, 104, 97, 115, 104];
    proof {
        assert(r@ =~= k_contract_hash());
    }
    r
}

/// The ASCII bytes of "mint_with".
pub open spec fn k_mint_with() -> Seq<u8> {
    seq![109u8, 105, 110, 116, 95, 119, 105, 116, 104]
}

/// The ASCII bytes of "mint_with".
pub fn k_mint_with_bytes() -> (r: Vec<u8>)
    ensures
        r@ == k_mint_with(),
{
    let r: Vec<u8> = vec![109u8, 105, 110, 116, 95, 119, 105, 116, 104];
    proof {
        assert(r@ =~= k_mint_with());
    }
    r
}

/// The ASCII bytes of "info".
pub open spec fn k_info() -> Seq<u8> {
    seq![105u8, 110, 102, 111]
}

/// The ASCII bytes of "info".
pub fn k_info_bytes() -> (r: Vec<u8>)
    ensures
        r@ == k_info(),
{
    let r: Vec<u8> = vec![105u8, 110, 102, 111];
    proof {
        assert(r@ =~= k_info());
    }
    r
}

/// The ASCII bytes of "infos".
pub open spec fn k_infos() -> Seq<u8> {
    seq![105u8, 110, 102, 111, 115]
}

/// The ASCII bytes of "infos".
pub fn k_infos_bytes() -> (r: Vec<u8>)
    ensures
        r@ == k_infos(),
{
    let r: Vec<u8> = vec![105u8, 110, 102, 111, 115];
    proof {
        assert(r@ =~= k_infos());
    }
    r
}

/// The ASCII bytes of "public_metadata".
pub open spec fn k_public_metadata() -> Seq<u8> {
    seq![112u8, 117, 98, 108, 105, 99, 95, 109, 101, 116, 97, 100, 97, 116, 97]
}

/// The ASCII bytes of "public_metadata".
pub fn k_public_metadata_bytes() -> (r: Vec<u8>)
    ensures
        r@ == k_public_metadata(),
{
    let r: Vec<u8> = vec![112u8, 117, 98, 108, 105, 99, 95, 109, 101, 116, 97, 100, 97, 116, 97];
    proof {
        assert(r@ =~= k_public_metadata());
    }
    r
}

/// The ASCII bytes of "private_metadata".
pub open spec fn k_private_metadata() -> Seq<u8> {
    seq![112u8, 114, 105, 118, 97, 116, 101, 95, 109, 101, 116, 97, 100, 97, 116, 97]
}

/// The ASCII bytes of "private_metadata".
pub fn k_private_metadata_bytes() -> (r: Vec<u8>)
    ensures
        r@ == k_private_metadata(),
{
    let r: Vec<u8> = vec![112u8, 114, 105, 118, 97, 116, 101, 95, 109, 101, 116, 97, 100, 97, 116, 97];
    proof {
        assert(r@ =~= k_private_metadata());
    }
    r
}

/// The ASCII bytes of "token_id".
pub open spec fn k_token_id() -> Seq<u8> {
    seq![116u8, 111, 107, 101, 110, 95, 105, 100]
}

/// The ASCII bytes of "token_id".
pub fn k_token_id_bytes() -> (r: Vec<u8>)
    ensures
        r@ == k_token_id(),
{
    let r: Vec<u8> = vec![116u8, 111, 107, 101, 110, 95, 105, 100];
    proof {
        assert(r@ =~= k_token_id());
    }
    r
}

/// The ASCII bytes of "token_uri".
pub open spec fn k_token_uri() -> Seq<u8> {
    seq![116u8, 111, 107, 101, 110, 95, 117, 114, 105]
}

/// The ASCII bytes of "token_uri".
pub fn k_token_uri_bytes() -> (r: Vec<u8>)
    ensures
        r@ == k_token_uri(),
{
    let r: Vec<u8> = vec![116u8, 111, 107, 101, 110, 95, 117, 114, 105];
    proof {
        assert(r@ =~= k_token_uri());
    }
    r
}

/// The ASCII bytes of "extension".
pub open spec fn k_extension() -> Seq<u8> {
    seq![101u8, 120, 116, 101, 110, 115, 105, 111, 110]
}

/// The ASCII bytes of "extension".
pub fn k_extension_bytes() -> (r: Vec<u8>)
    ensures
        r@ == k_extension(),
{
    let r: Vec<u8> = vec![101u8, 120, 116, 101, 110, 115, 105, 111, 110];
    proof {
        assert(r@ =~= k_extension());
    }
    r
}

/// The ASCII bytes of "token_uris".
pub open spec fn k_token_uris() -> Seq<u8> {
    seq![116u8, 111, 107, 101, 110, 95, 117, 114, 105, 115]
}

/// The ASCII bytes of "token_uris".
pub fn k_token_uris_bytes() -> (r: Vec<u8>)
    ensures
        r@ == k_token_uris(),
{
    let r: Vec<u8> = vec![116u8, 111, 107, 101, 110, 95, 117, 114, 105, 115];
    proof {
        assert(r@ =~= k_token_uris());
    }
    r
}

/// The ASCII bytes of "burner".
pub open spec fn k_burner() -> Seq<u8> {
    seq![98u8, 117, 114, 110, 101, 114]
}

/// The ASCII bytes of "burner".
pub fn k_burner_bytes() -> (r: Vec<u8>)
    ensures
        r@ == k_burner(),
{
    let r: Vec<u8> = vec![98u8, 117, 114, 110, 101, 114];
    proof {
        assert(r@ =~= k_burner());
    }
    r
}

/// The log key under which a `BridgeEventInfo` record is emitted.
pub open spec fn ev_key_bridge_event_info() -> Seq<u8> {
    seq![66u8, 114, 105, 100, 103, 101, 69, 118, 101, 110, 116, 73, 110, 102, 111]
}

/// The log key under which a `BridgeEventInfo` record is emitted.
pub fn ev_key_bridge_event_info_bytes() -> (r: Vec<u8>)
    ensures
        r@ == ev_key_bridge_event_info(),
{
    let r: Vec<u8> = vec![66u8, 114, 105, 100, 103, 101, 69, 118, 101, 110, 116, 73, 110, 102, 111];
    proof {
        assert(r@ =~= ev_key_bridge_event_info());
    }
    r
}

/// The log key under which a `TransferSnip721` record is emitted.
pub open spec fn ev_key_transfer_snip721() -> Seq<u8> {
    seq![84u8, 114, 97, 110, 115, 102, 101, 114, 83, 110, 105, 112, 55, 50, 49]
}

/// The log key under which a `TransferSnip721` record is emitted.
pub fn ev_key_transfer_snip721_bytes() -> (r: Vec<u8>)
    ensures
        r@ == ev_key_transfer_snip721(),
{
    let r: Vec<u8> = vec![84u8, 114, 97, 110, 115, 102, 101, 114, 83, 110, 105, 112, 55, 50, 49];
    proof {
        assert(r@ =~= ev_key_transfer_snip721());
    }
    r
}

/// The log key under which a `TransferSnip721Batch` record is emitted.
pub open spec fn ev_key_transfer_snip721_batch() -> Seq<u8> {
    seq![84u8, 114, 97, 110, 115, 102, 101, 114, 83, 110, 105, 112, 55, 50, 49, 66, 97, 116, 99, 104]
}

/// The log key under which a `TransferSnip721Batch` record is emitted.
pub fn ev_key_transfer_snip721_batch_bytes() -> (r: Vec<u8>)
    ensures
        r@ == ev_key_transfer_snip721_batch(),
{
    let r: Vec<u8> = vec![84u8, 114, 97, 110, 115, 102, 101, 114, 83, 110, 105, 112, 55, 50, 49, 66, 97, 116, 99, 104];
    proof {
        assert(r@ =~= ev_key_transfer_snip721_batch());
    }
    r
}

/// The log key under which a `UnfreezeSnip721` record is emitted.
pub open spec fn ev_key_unfreeze_snip721() -> Seq<u8> {
    seq![85u8, 110, 102, 114, 101, 101, 122, 101, 83, 110, 105, 112, 55, 50, 49]
}

/// The log key under which a `UnfreezeSnip721` record is emitted.
pub fn ev_key_unfreeze_snip721_bytes() -> (r: Vec<u8>)
    ensures
        r@ == ev_key_unfreeze_snip721(),
{
    let r: Vec<u8> = vec![85u8, 110, 102, 114, 101, 101, 122, 101, 83, 110, 105, 112, 55, 50, 49];
    proof {
        assert(r@ =~= ev_key_unfreeze_snip721());
    }
    r
}

/// The log key under which a `UnfreezeSnip721Batch` record is emitted.
pub open spec fn ev_key_unfreeze_snip721_batch() -> Seq<u8> {
    seq![85u8, 110, 102, 114, 101, 101, 122, 101, 83, 110, 105, 112, 55, 50, 49, 66, 97, 116, 99, 104]
}

/// The log key under which a `UnfreezeSnip721Batch` record is emitted.
pub fn ev_key_unfreeze_snip721_batch_bytes() -> (r: Vec<u8>)
    ensures
        r@ == ev_key_unfreeze_snip721_batch(),
{
    let r: Vec<u8> = vec![85u8, 110, 102, 114, 101, 101, 122, 101, 83, 110, 105, 112, 55, 50, 49, 66, 97, 116, 99, 104];
    proof {
        assert(r@ =~= ev_key_unfreeze_snip721_batch());
    }
    r
}

/// The decimal digits of `v`.
pub open spec fn dec_u128(v: u128) -> Seq<u8>
    decreases v,
{
    if v < 10 {
        seq![(48 + v) as u8]
    } else {
        dec_u128(v / 10) + seq![(48 + v % 10) as u8]
    }
}

/// The lower-case hexadecimal digit for `n`.
pub open spec fn hex_digit(n: u8) -> u8 {
    if n < 10 {
        (48 + n) as u8
    } else {
        (87 + n) as u8
    }
}

/// How one byte appears inside a JSON string: quote and backslash are
/// escaped, control bytes become a hexadecimal escape, everything else is
/// carried as it is.
pub open spec fn esc_byte(b: u8) -> Seq<u8> {
    if b == 34 {
        seq![92u8, 34u8]
    } else if b == 92 {
        seq![92u8, 92u8]
    } else if b < 32 {
        seq![92u8, 117u8, 48u8, 48u8, hex_digit((b / 16) as u8), hex_digit((b % 16) as u8)]
    } else {
        seq![b]
    }
}

/// The JSON-escaped form of a byte string.
pub open spec fn json_escaped(s: Seq<u8>) -> Seq<u8>
    decreases s.len(),
{
    if s.len() == 0 {
        Seq::empty()
    } else {
        json_escaped(s.drop_last()) + esc_byte(s.last())
    }
}

/// A JSON string literal: quoted and escaped.
pub open spec fn json_str(s: Seq<u8>) -> Seq<u8> {
    seq![34u8] + json_escaped(s) + seq![34u8]
}

/// An object key: quoted (keys are plain ASCII) and followed by the colon.
pub open spec fn json_key(k: Seq<u8>) -> Seq<u8> {
    seq![34u8] + k + seq![34u8, 58u8]
}

/// The JSON `null` literal.
pub open spec fn json_null() -> Seq<u8> {
    seq![110u8, 117, 108, 108]
}

/// A metadata object: the token URI (or null) and the opaque extension
/// document (spliced as the host edge encoded it, or null).
pub open spec fn json_meta(m: Meta) -> Seq<u8> {
    seq![123u8] + json_key(k_token_uri()) + (match m.token_uri {
        Option::None => json_null(),
        Option::Some(u) => json_str(u@),
    }) + seq![44u8] + json_key(k_extension()) + (match m.extension {
        Option::None => json_null(),
        Option::Some(e) => e@,
    }) + seq![125u8]
}

/// An optional metadata object.
pub open spec fn json_opt_meta(o: Option<Meta>) -> Seq<u8> {
    match o {
        Option::None => json_null(),
        Option::Some(m) => json_meta(m),
    }
}

/// One transfer-info object.
pub open spec fn json_transfer_info(t: TransferInfo) -> Seq<u8> {
    seq![123u8] + json_key(k_public_metadata()) + json_opt_meta(t.public_metadata) + seq![44u8]
        + json_key(k_private_metadata()) + json_opt_meta(t.private_metadata) + seq![44u8]
        + json_key(k_token_id()) + json_str(t.token_id@) + seq![125u8]
}

/// The comma-separated bodies of an array of transfer-info objects.
pub open spec fn json_transfer_info_list(s: Seq<TransferInfo>) -> Seq<u8>
    decreases s.len(),
{
    if s.len() == 0 {
        Seq::empty()
    } else if s.len() == 1 {
        json_transfer_info(s[0])
    } else {
        json_transfer_info_list(s.drop_last()) + seq![44u8] + json_transfer_info(s.last())
    }
}

/// The comma-separated bodies of an array of JSON strings.
pub open spec fn json_str_list(s: Seq<Seq<u8>>) -> Seq<u8>
    decreases s.len(),
{
    if s.len() == 0 {
        Seq::empty()
    } else if s.len() == 1 {
        json_str(s[0])
    } else {
        json_str_list(s.drop_last()) + seq![44u8] + json_str(s.last())
    }
}

/// The JSON document of a `BridgeEventInfo` record.
pub open spec fn json_bridge_event_info(e: BridgeEventInfo) -> Seq<u8> {
    seq![123u8] + json_key(k_action_id()) + dec_u128(e.action_id) + seq![44u8] + json_key(
        k_chain_nonce(),
    ) + dec_u128(e.chain_nonce as u128) + seq![44u8] + json_key(k_tx_fees()) + dec_u128(e.tx_fees)
        + seq![44u8] + json_key(k_to()) + json_str(e.to@) + seq![125u8]
}

/// The JSON document of a `TransferSnip721` record.
pub open spec fn json_transfer_snip721(e: TransferSnip721) -> Seq<u8> {
    seq![123u8] + json_key(k_contract_addr()) + json_str(e.contract_addr@) + seq![44u8] + json_key(
        k_contract_hash(),
    ) + json_str(e.contract_hash@) + seq![44u8] + json_key(k_mint_with()) + json_str(e.mint_with@)
        + seq![44u8] + json_key(k_info()) + json_transfer_info(e.info) + seq![125u8]
}

/// The JSON document of a batch transfer-detail record, from its parts.
pub open spec fn json_transfer_snip721_batch_parts(
    infos: Seq<TransferInfo>,
    contract_addr: Seq<u8>,
    contract_hash: Seq<u8>,
    mint_with: Seq<u8>,
) -> Seq<u8> {
    seq![123u8] + json_key(k_infos()) + seq![91u8] + json_transfer_info_list(infos) + seq![93u8]
        + seq![44u8] + json_key(k_contract_addr()) + json_str(contract_addr) + seq![44u8]
        + json_key(k_contract_hash()) + json_str(contract_hash) + seq![44u8] + json_key(
        k_mint_with(),
    ) + json_str(mint_with) + seq![125u8]
}

/// The JSON document of a `TransferSnip721Batch` record.
pub open spec fn json_transfer_snip721_batch(e: TransferSnip721Batch) -> Seq<u8> {
    json_transfer_snip721_batch_parts(e.infos@, e.contract_addr@, e.contract_hash@, e.mint_with@)
}

/// The JSON document of an `UnfreezeSnip721` record.
pub open spec fn json_unfreeze_snip721(e: UnfreezeSnip721) -> Seq<u8> {
    seq![123u8] + json_key(k_token_uri()) + json_str(e.token_uri@) + seq![44u8] + json_key(
        k_burner(),
    ) + json_str(e.burner@) + seq![125u8]
}

/// The JSON document of a batch unfreeze-detail record, from its parts.
pub open spec fn json_unfreeze_snip721_batch_parts(token_uris: Seq<Seq<u8>>, burner: Seq<u8>) -> Seq<
    u8,
> {
    seq![123u8] + json_key(k_token_uris()) + seq![91u8] + json_str_list(token_uris) + seq![93u8]
        + seq![44u8] + json_key(k_burner()) + json_str(burner) + seq![125u8]
}

/// The JSON document of an `UnfreezeSnip721Batch` record.
pub open spec fn json_unfreeze_snip721_batch(e: UnfreezeSnip721Batch) -> Seq<u8> {
    json_unfreeze_snip721_batch_parts(
        Seq::new(e.token_uris@.len(), |i: int| e.token_uris@[i]@),
        e.burner@,
    )
}

fn hex_digit_of(n: u8) -> (r: u8)
    requires
        n < 16,
    ensures
        r == hex_digit(n),
{
    if n < 10 {
        48 + n
    } else {
        87 + n
    }
}

/// Appends the decimal digits of `v`.
pub fn push_dec_u128(out: &mut Vec<u8>, v: u128)
    ensures
        final(out)@ == old(out)@ + dec_u128(v),
    decreases v,
{
    if v < 10 {
        out.push(48 + (v as u8));
        proof {
            assert(out@ =~= old(out)@ + dec_u128(v));
        }
    } else {
        push_dec_u128(out, v / 10);
        out.push(48 + ((v % 10) as u8));
        proof {
            assert(out@ =~= old(out)@ + dec_u128(v));
        }
    }
}

/// Appends the JSON-escaped bytes of `s`.
pub fn push_escaped(out: &mut Vec<u8>, s: &Vec<u8>)
    ensures
        final(out)@ == old(out)@ + json_escaped(s@),
{
    let mut i: usize = 0;
    while i < s.len()
        invariant
            i <= s.len(),
            out@ == old(out)@ + json_escaped(s@.take(i as int)),
        decreases s.len() - i,
    {
        let b = s[i];
        if b == 34 {
            out.push(92);
            out.push(34);
        } else if b == 92 {
            out.push(92);
            out.push(92);
        } else if b < 32 {
            out.push(92);
            out.push(117);
            out.push(48);
            out.push(48);
            out.push(hex_digit_of(b / 16));
            out.push(hex_digit_of(b % 16));
        } else {
            out.push(b);
        }
        i = i + 1;
        proof {
            let t = s@.take(i as int);
            assert(t.drop_last() =~= s@.take(i - 1));
            assert(t.last() == s@[i - 1]);
            assert(out@ =~= old(out)@ + json_escaped(t));
        }
    }
    proof {
        assert(s@.take(s@.len() as int) =~= s@);
    }
}

/// Appends a JSON string literal holding `s`.
pub fn push_json_str(out: &mut Vec<u8>, s: &Vec<u8>)
    ensures
        final(out)@ == old(out)@ + json_str(s@),
{
    out.push(34);
    push_escaped(out, s);
    out.push(34);
    proof {
        assert(out@ =~= old(out)@ + json_str(s@));
    }
}

/// Appends an object key.
pub fn push_json_key(out: &mut Vec<u8>, k: Vec<u8>)
    ensures
        final(out)@ == old(out)@ + json_key(k@),
{
    out.push(34);
    crate::encode::push_raw(out, &k);
    out.push(34);
    out.push(58);
    proof {
        assert(out@ =~= old(out)@ + json_key(k@));
    }
}

/// Appends the JSON `null` literal.
pub fn push_null(out: &mut Vec<u8>)
    ensures
        final(out)@ == old(out)@ + json_null(),
{
    out.push(110);
    out.push(117);
    out.push(108);
    out.push(108);
    proof {
        assert(out@ =~= old(out)@ + json_null());
    }
}

/// Appends a metadata object.
pub fn push_meta(out: &mut Vec<u8>, m: &Meta)
    ensures
        final(out)@ == old(out)@ + json_meta(*m),
{
    out.push(123);
    push_json_key(out, k_token_uri_bytes());
    match &m.token_uri {
        Option::None => push_null(out),
        Option::Some(u) => push_json_str(out, u),
    }
    out.push(44);
    push_json_key(out, k_extension_bytes());
    match &m.extension {
        Option::None => push_null(out),
        Option::Some(e) => crate::encode::push_raw(out, e),
    }
    out.push(125);
    proof {
        assert(out@ =~= old(out)@ + json_meta(*m));
    }
}

/// Appends an optional metadata object.
pub fn push_opt_meta(out: &mut Vec<u8>, o: &Option<Meta>)
    ensures
        final(out)@ == old(out)@ + json_opt_meta(*o),
{
    match o {
        Option::None => push_null(out),
        Option::Some(m) => push_meta(out, m),
    }
}

/// Appends one transfer-info object.
pub fn push_transfer_info(out: &mut Vec<u8>, t: &TransferInfo)
    ensures
        final(out)@ == old(out)@ + json_transfer_info(*t),
{
    out.push(123);
    push_json_key(out, k_public_metadata_bytes());
    push_opt_meta(out, &t.public_metadata);
    out.push(44);
    push_json_key(out, k_private_metadata_bytes());
    push_opt_meta(out, &t.private_metadata);
    out.push(44);
    push_json_key(out, k_token_id_bytes());
    push_json_str(out, &t.token_id);
    out.push(125);
    proof {
        assert(out@ =~= old(out)@ + json_transfer_info(*t));
    }
}

/// Appends the comma-separated elements of an array of transfer-info objects.
pub fn push_transfer_info_list(out: &mut Vec<u8>, s: &Vec<TransferInfo>)
    ensures
        final(out)@ == old(out)@ + json_transfer_info_list(s@),
{
    let mut i: usize = 0;
    while i < s.len()
        invariant
            i <= s.len(),
            out@ == old(out)@ + json_transfer_info_list(s@.take(i as int)),
        decreases s.len() - i,
    {
        if i > 0 {
            out.push(44);
        }
        push_transfer_info(out, &s[i]);
        i = i + 1;
        proof {
            let t = s@.take(i as int);
            assert(t.drop_last() =~= s@.take(i - 1));
            assert(t.last() == s@[i - 1]);
            assert(out@ =~= old(out)@ + json_transfer_info_list(t));
        }
    }
    proof {
        assert(s@.take(s@.len() as int) =~= s@);
    }
}

/// Appends the comma-separated elements of an array of JSON strings.
pub fn push_str_list(out: &mut Vec<u8>, s: &Vec<Vec<u8>>)
    ensures
        final(out)@ == old(out)@ + json_str_list(Seq::new(s@.len(), |i: int| s@[i]@)),
{
    let ghost view = Seq::new(s@.len(), |i: int| s@[i]@);
    let mut i: usize = 0;
    while i < s.len()
        invariant
            i <= s.len(),
            view == Seq::new(s@.len(), |k: int| s@[k]@),
            out@ == old(out)@ + json_str_list(view.take(i as int)),
        decreases s.len() - i,
    {
        if i > 0 {
            out.push(44);
        }
        push_json_str(out, &s[i]);
        i = i + 1;
        proof {
            let t = view.take(i as int);
            assert(t.drop_last() =~= view.take(i - 1));
            assert(t.last() == view[i - 1] && view[i - 1] == s@[i - 1]@);
            assert(out@ =~= old(out)@ + json_str_list(t));
        }
    }
    proof {
        assert(view.take(view.len() as int) =~= view);
    }
}

/// Encode a `BridgeEventInfo` record as a log attribute.
pub fn encode_bridge_event_info(e: &BridgeEventInfo) -> (r: LogAttribute)
    ensures
        r.key@ == ev_key_bridge_event_info(),
        r.value@ == json_bridge_event_info(*e),
{
    let mut v: Vec<u8> = Vec::new();
    v.push(123);
    push_json_key(&mut v, k_action_id_bytes());
    push_dec_u128(&mut v, e.action_id);
    v.push(44);
    push_json_key(&mut v, k_chain_nonce_bytes());
    push_dec_u128(&mut v, e.chain_nonce as u128);
    v.push(44);
    push_json_key(&mut v, k_tx_fees_bytes());
    push_dec_u128(&mut v, e.tx_fees);
    v.push(44);
    push_json_key(&mut v, k_to_bytes());
    push_json_str(&mut v, &e.to);
    v.push(125);
    proof {
        assert(v@ =~= json_bridge_event_info(*e));
    }
    LogAttribute { key: ev_key_bridge_event_info_bytes(), value: v }
}

/// Encode a `TransferSnip721` record as a log attribute.
pub fn encode_transfer_snip721(e: &TransferSnip721) -> (r: LogAttribute)
    ensures
        r.key@ == ev_key_transfer_snip721(),
        r.value@ == json_transfer_snip721(*e),
{
    let mut v: Vec<u8> = Vec::new();
    v.push(123);
    push_json_key(&mut v, k_contract_addr_bytes());
    push_json_str(&mut v, &e.contract_addr);
    v.push(44);
    push_json_key(&mut v, k_contract_hash_bytes());
    push_json_str(&mut v, &e.contract_hash);
    v.push(44);
    push_json_key(&mut v, k_mint_with_bytes());
    push_json_str(&mut v, &e.mint_with);
    v.push(44);
    push_json_key(&mut v, k_info_bytes());
    push_transfer_info(&mut v, &e.info);
    v.push(125);
    proof {
        assert(v@ =~= json_transfer_snip721(*e));
    }
    LogAttribute { key: ev_key_transfer_snip721_bytes(), value: v }
}

/// Encode a `TransferSnip721Batch` record as a log attribute.
pub fn encode_transfer_snip721_batch(e: &TransferSnip721Batch) -> (r: LogAttribute)
    ensures
        r.key@ == ev_key_transfer_snip721_batch(),
        r.value@ == json_transfer_snip721_batch(*e),
{
    let mut v: Vec<u8> = Vec::new();
    v.push(123);
    push_json_key(&mut v, k_infos_bytes());
    v.push(91);
    push_transfer_info_list(&mut v, &e.infos);
    v.push(93);
    v.push(44);
    push_json_key(&mut v, k_contract_addr_bytes());
    push_json_str(&mut v, &e.contract_addr);
    v.push(44);
    push_json_key(&mut v, k_contract_hash_bytes());
    push_json_str(&mut v, &e.contract_hash);
    v.push(44);
    push_json_key(&mut v, k_mint_with_bytes());
    push_json_str(&mut v, &e.mint_with);
    v.push(125);
    proof {
        assert(v@ =~= json_transfer_snip721_batch(*e));
    }
    LogAttribute { key: ev_key_transfer_snip721_batch_bytes(), value: v }
}

/// Encode an `UnfreezeSnip721` record as a log attribute.
pub fn encode_unfreeze_snip721(e: &UnfreezeSnip721) -> (r: LogAttribute)
    ensures
        r.key@ == ev_key_unfreeze_snip721(),
        r.value@ == json_unfreeze_snip721(*e),
{
    let mut v: Vec<u8> = Vec::new();
    v.push(123);
    push_json_key(&mut v, k_token_uri_bytes());
    push_json_str(&mut v, &e.token_uri);
    v.push(44);
    push_json_key(&mut v, k_burner_bytes());
    push_json_str(&mut v, &e.burner);
    v.push(125);
    proof {
        assert(v@ =~= json_unfreeze_snip721(*e));
    }
    LogAttribute { key: ev_key_unfreeze_snip721_bytes(), value: v }
}

/// Encode an `UnfreezeSnip721Batch` record as a log attribute.
pub fn encode_unfreeze_snip721_batch(e: &UnfreezeSnip721Batch) -> (r: LogAttribute)
    ensures
        r.key@ == ev_key_unfreeze_snip721_batch(),
        r.value@ == json_unfreeze_snip721_batch(*e),
{
    let mut v: Vec<u8> = Vec::new();
    v.push(123);
    push_json_key(&mut v, k_token_uris_bytes());
    v.push(91);
    push_str_list(&mut v, &e.token_uris);
    v.push(93);
    v.push(44);
    push_json_key(&mut v, k_burner_bytes());
    push_json_str(&mut v, &e.burner);
    v.push(125);
    proof {
        assert(v@ =~= json_unfreeze_snip721_batch(*e));
    }
    LogAttribute { key: ev_key_unfreeze_snip721_batch_bytes(), value: v }
}

/// Two optional byte strings that hold the same bytes.
pub open spec fn opt_bytes_matches(a: Option<Vec<u8>>, b: Option<Vec<u8>>) -> bool {
    match (a, b) {
        (Option::None, Option::None) => true,
        (Option::Some(x), Option::Some(y)) => x@ == y@,
        _ => false,
    }
}

/// Two metadata records that hold the same bytes.
pub open spec fn meta_matches(a: Meta, b: Meta) -> bool {
    opt_bytes_matches(a.token_uri, b.token_uri) && opt_bytes_matches(a.extension, b.extension)
}

/// Two optional metadata records that hold the same bytes.
pub open spec fn opt_meta_matches(a: Option<Meta>, b: Option<Meta>) -> bool {
    match (a, b) {
        (Option::None, Option::None) => true,
        (Option::Some(x), Option::Some(y)) => meta_matches(x, y),
        _ => false,
    }
}

/// Two transfer-info records that hold the same bytes.
pub open spec fn transfer_info_matches(a: TransferInfo, b: TransferInfo) -> bool {
    &&& opt_meta_matches(a.public_metadata, b.public_metadata)
    &&& opt_meta_matches(a.private_metadata, b.private_metadata)
    &&& a.token_id@ == b.token_id@
}

/// The encoded document depends only on the bytes a record holds.
pub proof fn lemma_json_meta_congruent(a: Meta, b: Meta)
    requires
        meta_matches(a, b),
    ensures
        json_meta(a) == json_meta(b),
{
}

/// The encoded document depends only on the bytes a record holds.
pub proof fn lemma_json_transfer_info_congruent(a: TransferInfo, b: TransferInfo)
    requires
        transfer_info_matches(a, b),
    ensures
        json_transfer_info(a) == json_transfer_info(b),
{
    match (a.public_metadata, b.public_metadata) {
        (Option::Some(x), Option::Some(y)) => lemma_json_meta_congruent(x, y),
        _ => (),
    }
    match (a.private_metadata, b.private_metadata) {
        (Option::Some(x), Option::Some(y)) => lemma_json_meta_congruent(x, y),
        _ => (),
    }
}

/// The encoded array depends only on the bytes its records hold.
pub proof fn lemma_json_transfer_info_list_congruent(a: Seq<TransferInfo>, b: Seq<TransferInfo>)
    requires
        a.len() == b.len(),
        forall|i: int| 0 <= i < a.len() ==> transfer_info_matches(a[i], b[i]),
    ensures
        json_transfer_info_list(a) == json_transfer_info_list(b),
    decreases a.len(),
{
    if a.len() == 0 {
    } else if a.len() == 1 {
        lemma_json_transfer_info_congruent(a[0], b[0]);
    } else {
        lemma_json_transfer_info_list_congruent(a.drop_last(), b.drop_last());
        lemma_json_transfer_info_congruent(a.last(), b.last());
    }
}

} // verus!
