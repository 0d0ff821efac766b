//! The domain-separation labels, one ASCII tag per operation kind. The label
//! is hashed in front of the encoded action, so a signature produced for one
//! operation kind cannot authorize another.
use vstd::prelude::*;

verus! {

/// The ASCII bytes of "SetPause".
pub open spec fn label_set_pause() -> Seq<u8> {
    seq![83u8, 101, 116, 80, 97, 117, 115, 101]
}

/// The ASCII bytes of "SetPause".
pub fn label_set_pause_bytes() -> (r: Vec<u8>)
    ensures
        r@ == label_set_pause(),
{
    let r: Vec<u8> = vec![83u8, 101, 116, 80, 97, 117, 115, 101];
    proof {
        assert(r@ =~= label_set_pause());
    }
    r
}

/// The ASCII bytes of "SetGroupKey".
pub open spec fn label_set_group_key() -> Seq<u8> {
    seq![83u8, 101, 116, 71, 114, 111, 117, 112, 75, 101, 121]
}

/// The ASCII bytes of "SetGroupKey".
pub fn label_set_group_key_bytes() -> (r: Vec<u8>)
    ensures
        r@ == label_set_group_key(),
{
    let r: Vec<u8> = vec![83u8, 101, 116, 71, 114, 111, 117, 112, 75, 101, 121];
    proof {
        assert(r@ =~= label_set_group_key());
    }
    r
}

/// The ASCII bytes of "WithdrawFees".
pub open spec fn label_withdraw_fees() -> Seq<u8> {
    seq![87u8, 105, 116, 104, 100, 114, 97, 119, 70, 101, 101, 115]
}

/// The ASCII bytes of "WithdrawFees".
pub fn label_withdraw_fees_bytes() -> (r: Vec<u8>)
    ensures
        r@ == label_withdraw_fees(),
{
    let r: Vec<u8> = vec![87u8, 105, 116, 104, 100, 114, 97, 119, 70, 101, 101, 115];
    proof {
        assert(r@ =~= label_withdraw_fees());
    }
    r
}

/// The ASCII bytes of "WhitelistNft".
pub open spec fn label_whitelist_nft() -> Seq<u8> {
    seq![87u8, 104, 105, 116, 101, 108, 105, 115, 116, 78, 102, 116]
}

/// The ASCII bytes of "WhitelistNft".
pub fn label_whitelist_nft_bytes() -> (r: Vec<u8>)
    ensures
        r@ == label_whitelist_nft(),
{
    let r: Vec<u8> = vec![87u8, 104, 105, 116, 101, 108, 105, 115, 116, 78, 102, 116];
    proof {
        assert(r@ =~= label_whitelist_nft());
    }
    r
}

/// The ASCII bytes of "ValidateTransferNft".
pub open spec fn label_validate_transfer_nft() -> Seq<u8> {
    seq![86u8, 97, 108, 105, 100, 97, 116, 101, 84, 114, 97, 110, 115, 102, 101, 114, 78, 102, 116]
}

/// The ASCII bytes of "ValidateTransferNft".
pub fn label_validate_transfer_nft_bytes() -> (r: Vec<u8>)
    ensures
        r@ == label_validate_transfer_nft(),
{
    let r: Vec<u8> = vec![86u8, 97, 108, 105, 100, 97, 116, 101, 84, 114, 97, 110, 115, 102, 101, 114, 78, 102, 116];
    proof {
        assert(r@ =~= label_validate_transfer_nft());
    }
    r
}

/// The ASCII bytes of "ValidateTransferNftBatch".
pub open spec fn label_validate_transfer_nft_batch() -> Seq<u8> {
    seq![86u8, 97, 108, 105, 100, 97, 116, 101, 84, 114, 97, 110, 115, 102, 101, 114, 78, 102, 116, 66, 97, 116, 99, 104]
}

/// The ASCII bytes of "ValidateTransferNftBatch".
pub fn label_validate_transfer_nft_batch_bytes() -> (r: Vec<u8>)
    ensures
        r@ == label_validate_transfer_nft_batch(),
{
    let r: Vec<u8> = vec![86u8, 97, 108, 105, 100, 97, 116, 101, 84, 114, 97, 110, 115, 102, 101, 114, 78, 102, 116, 66, 97, 116, 99, 104];
    proof {
        assert(r@ =~= label_validate_transfer_nft_batch());
    }
    r
}

/// The ASCII bytes of "ValidateUnfreezeNft".
pub open spec fn label_validate_unfreeze_nft() -> Seq<u8> {
    seq![86u8, 97, 108, 105, 100, 97, 116, 101, 85, 110, 102, 114, 101, 101, 122, 101, 78, 102, 116]
}

/// The ASCII bytes of "ValidateUnfreezeNft".
pub fn label_validate_unfreeze_nft_bytes() -> (r: Vec<u8>)
    ensures
        r@ == label_validate_unfreeze_nft(),
{
    let r: Vec<u8> = vec![86u8, 97, 108, 105, 100, 97, 116, 101, 85, 110, 102, 114, 101, 101, 122, 101, 78, 102, 116];
    proof {
        assert(r@ =~= label_validate_unfreeze_nft());
    }
    r
}

/// The ASCII bytes of "ValidateUnfreezeNftBatch".
pub open spec fn label_validate_unfreeze_nft_batch() -> Seq<u8> {
    seq![86u8, 97, 108, 105, 100, 97, 116, 101, 85, 110, 102, 114, 101, 101, 122, 101, 78, 102, 116, 66, 97, 116, 99, 104]
}

/// The ASCII bytes of "ValidateUnfreezeNftBatch".
pub fn label_validate_unfreeze_nft_batch_bytes() -> (r: Vec<u8>)
    ensures
        r@ == label_validate_unfreeze_nft_batch(),
{
    let r: Vec<u8> = vec![86u8, 97, 108, 105, 100, 97, 116, 101, 85, 110, 102, 114, 101, 101, 122, 101, 78, 102, 116, 66, 97, 116, 99, 104];
    proof {
        assert(r@ =~= label_validate_unfreeze_nft_batch());
    }
    r
}

} // verus!
