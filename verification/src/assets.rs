//! Asset descriptors held by a vault and the transfer commands produced
//! when a recovery completes.

use vstd::prelude::*;
use crate::ids::AccountId;

verus! {

/// Whether an asset is a fungible token balance or a single non-fungible
/// token.
#[derive(Clone, Copy, PartialEq, Eq, Structural, Debug)]
pub enum AssetType {
    Token,
    NFT,
}

/// One asset under vault custody: where it sits and how much of it moves on
/// recovery completion.
#[derive(Clone, Copy, PartialEq, Eq, Structural, Debug)]
pub struct Asset {
    pub asset_type: AssetType,
    pub amount: u64,
    pub token_account: AccountId,
    pub mint: AccountId,
}

/// An instruction to the asset ledger: move `amount` units of `mint` out of
/// `source` into the new owner's corresponding account.  The engine only
/// decides these; an embedding runtime carries them out.
#[derive(Clone, Copy, PartialEq, Eq, Structural, Debug)]
pub struct TransferCmd {
    pub source: AccountId,
    pub mint: AccountId,
    pub amount: u64,
}

/// The command a single asset turns into: the configured amount for a
/// fungible token, exactly one unit for a non-fungible token.
pub open spec fn transfer_of(a: Asset) -> TransferCmd {
    TransferCmd {
        source: a.token_account,
        mint: a.mint,
        amount: if a.asset_type is Token {
            a.amount
        } else {
            1u64
        },
    }
}

/// The transfers a completed recovery owes: one per configured asset, in
/// list order.
pub open spec fn transfers_of(assets: Seq<Asset>) -> Seq<TransferCmd> {
    assets.map_values(|a: Asset| transfer_of(a))
}

/// Builds the transfer list for a completed recovery.
pub fn build_transfers(assets: &Vec<Asset>) -> (r: Vec<TransferCmd>)
    ensures
        r@ == transfers_of(assets@),
{
    let mut out: Vec<TransferCmd> = Vec::new();
    let mut i: usize = 0;
    while i < assets.len()
        invariant
            0 <= i <= assets@.len(),
            out@ == transfers_of(assets@.subrange(0, i as int)),
        decreases assets@.len() - i,
    {
        let a = assets[i];
        let cmd = TransferCmd {
            source: a.token_account,
            mint: a.mint,
            amount: match a.asset_type {
                AssetType::Token => a.amount,
                AssetType::NFT => 1u64,
            },
        };
        out.push(cmd);
        proof {
            assert(out@ =~= transfers_of(assets@.subrange(0, i as int + 1)));
        }
        i = i + 1;
    }
    proof {
        assert(assets@.subrange(0, assets@.len() as int) =~= assets@);
    }
    out
}

} // verus!
