//! A verified model of a minimal fungible-token program.
//!
//! The program exposes three instructions — mint initialization, minting and
//! transfer — each acting on a ledger of mint and token-account records. Every
//! instruction first validates the account bundle it was handed (writability,
//! signatures, program addresses), then applies the token rules: minting is
//! allowed only to the recognized mint authority, a transfer never moves more
//! than the source balance, and balances and supply are kept exact.

pub mod instructions;
pub mod laws;
pub mod state;

pub use instructions::{
    create_token_account, initialize_token, mint_tokens, transfer_tokens, ErrorCode,
    InitializeToken, Ledger, MintTokens, TransferTokens,
};
pub use state::{AccountRef, LedgerModel, Mint, TokenAccount};
