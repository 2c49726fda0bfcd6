//! The data the instructions act on: per-account transaction metadata, mint
//! and token-account records, and the mathematical model of a whole ledger.

use vstd::prelude::*;

verus! {

/// Transaction-level metadata for one account referenced by an instruction:
/// its address and the signer / writability flags the transaction granted it.
#[derive(Clone, Copy, PartialEq, Eq, Structural, Debug)]
pub struct AccountRef {
    pub address: u64,
    pub is_signer: bool,
    pub is_writable: bool,
}

/// A mint record: one fungible token kind, with its decimal precision, the
/// identity allowed to mint new supply, and the supply minted so far.
#[derive(Clone, Copy, PartialEq, Eq, Structural, Debug)]
pub struct Mint {
    pub authority: u64,
    pub decimals: u8,
    pub supply: u64,
}

/// A token account record: a balance of one mint held for one owner.
#[derive(Clone, Copy, PartialEq, Eq, Structural, Debug)]
pub struct TokenAccount {
    pub owner: u64,
    pub mint: u64,
    pub balance: u64,
}

/// The mathematical model of a ledger: two maps from address to record.
#[verifier::ext_equal]
pub struct LedgerModel {
    pub mints: Map<u64, Mint>,
    pub accounts: Map<u64, TokenAccount>,
}

impl LedgerModel {
    /// Well-formedness: mint addresses and token-account addresses never
    /// collide, and every token account refers to a mint that exists.
    pub open spec fn wf(self) -> bool {
        &&& forall|a: u64|
            #[trigger] self.accounts.contains_key(a) ==> self.mints.contains_key(
                self.accounts[a].mint,
            )
        &&& forall|a: u64| #[trigger] self.mints.contains_key(a) ==> !self.accounts.contains_key(a)
    }
}

} // verus!
