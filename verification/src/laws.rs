//! Laws of the instruction set, stated over the ledger model and proved once
//! and for all: what initialization fixes, what minting and transfer may and
//! may not change, and which requests are always rejected.

use crate::instructions::{
    initialize_apply, initialize_error, mint_apply, mint_constraints_ok, mint_error,
    transfer_apply, transfer_constraints_ok, transfer_error, ErrorCode, InitializeToken,
    MintTokens, TransferTokens, MINT_DECIMALS,
};
use crate::state::LedgerModel;
use vstd::prelude::*;

verus! {

/// Whatever decimal precision an initialization request carries, the mint it
/// creates has precision `MINT_DECIMALS`, a supply of zero, and the funding
/// signer as authority: the created record does not depend on the requested
/// decimals at all, as `initialize_apply` takes no such argument.
pub proof fn lemma_initialize_fixes_decimals(l: LedgerModel, ctx: InitializeToken)
    ensures
        initialize_apply(l, ctx).mints[ctx.mint.address].decimals == MINT_DECIMALS,
        initialize_apply(l, ctx).mints[ctx.mint.address].supply == 0,
        initialize_apply(l, ctx).mints[ctx.mint.address].authority == ctx.authority.address,
{
}

/// Initializing the same mint address twice fails: after one successful
/// initialization, running the same bundle again is rejected because the
/// address is already in use.
pub proof fn lemma_initialize_twice_rejected(l: LedgerModel, ctx: InitializeToken)
    requires
        initialize_error(l, ctx) is None,
    ensures
        initialize_error(initialize_apply(l, ctx), ctx) == Some(ErrorCode::AccountAlreadyInUse),
{
}

/// Minting an amount of zero is never rejected — no guard singles out zero —
/// and changes nothing: every balance and every supply stays as it was.
/// Whenever a mint of any amount would succeed, so does a mint of zero.
pub proof fn lemma_mint_zero_changes_nothing(l: LedgerModel, ctx: MintTokens, amount: u64)
    requires
        mint_error(l, ctx, amount) is None,
    ensures
        mint_error(l, ctx, 0) is None,
        mint_apply(l, ctx, 0) == l,
{
    assert(mint_apply(l, ctx, 0) =~= l);
}

/// A mint instruction signed by an identity other than the mint's recorded
/// authority is rejected with `UnauthorizedMintAuthority`, whatever the
/// amount; by the instruction's contract a rejection leaves the ledger
/// untouched.
pub proof fn lemma_mint_wrong_authority_rejected(l: LedgerModel, ctx: MintTokens, amount: u64)
    requires
        mint_constraints_ok(ctx),
        l.mints.contains_key(ctx.mint.address),
        l.accounts.contains_key(ctx.destination.address),
        l.accounts[ctx.destination.address].mint == ctx.mint.address,
        ctx.authority.address != l.mints[ctx.mint.address].authority,
    ensures
        mint_error(l, ctx, amount) == Some(ErrorCode::UnauthorizedMintAuthority),
{
}

/// A successful mint was signed by the recorded mint authority, and it grows
/// the supply and the destination balance by exactly the amount minted.
pub proof fn lemma_mint_grows_supply(l: LedgerModel, ctx: MintTokens, amount: u64)
    requires
        mint_error(l, ctx, amount) is None,
    ensures
        ctx.authority.is_signer,
        ctx.authority.address == l.mints[ctx.mint.address].authority,
        mint_apply(l, ctx, amount).mints[ctx.mint.address].supply == l.mints[
            ctx.mint.address
        ].supply + amount,
        mint_apply(l, ctx, amount).accounts[ctx.destination.address].balance == l.accounts[
            ctx.destination.address
        ].balance + amount,
{
}

/// A transfer of more than the source balance is rejected with
/// `InsufficientBalance`; by the instruction's contract a rejection leaves
/// the ledger untouched, so both balances are unchanged.
pub proof fn lemma_transfer_insufficient_rejected(l: LedgerModel, ctx: TransferTokens, amount: u64)
    requires
        transfer_constraints_ok(ctx),
        l.accounts.contains_key(ctx.from.address),
        l.accounts.contains_key(ctx.to.address),
        l.accounts[ctx.from.address].mint == l.accounts[ctx.to.address].mint,
        ctx.authority.address == l.accounts[ctx.from.address].owner,
        amount > l.accounts[ctx.from.address].balance,
    ensures
        transfer_error(l, ctx, amount) == Some(ErrorCode::InsufficientBalance),
{
}

/// A transfer of exactly the full source balance between two distinct
/// accounts succeeds, leaves the source at zero, and grows the destination
/// by that full balance.
pub proof fn lemma_transfer_full_balance(l: LedgerModel, ctx: TransferTokens)
    requires
        transfer_constraints_ok(ctx),
        l.accounts.contains_key(ctx.from.address),
        l.accounts.contains_key(ctx.to.address),
        l.accounts[ctx.from.address].mint == l.accounts[ctx.to.address].mint,
        ctx.authority.address == l.accounts[ctx.from.address].owner,
        ctx.from.address != ctx.to.address,
        l.accounts[ctx.to.address].balance + l.accounts[ctx.from.address].balance <= u64::MAX,
    ensures
        transfer_error(l, ctx, l.accounts[ctx.from.address].balance) is None,
        transfer_apply(
            l,
            ctx,
            l.accounts[ctx.from.address].balance,
        ).accounts[ctx.from.address].balance == 0,
        transfer_apply(
            l,
            ctx,
            l.accounts[ctx.from.address].balance,
        ).accounts[ctx.to.address].balance == l.accounts[ctx.to.address].balance + l.accounts[
            ctx.from.address
        ].balance,
{
}

/// A transfer conserves tokens: the source and destination balances change
/// by the same amount in opposite directions, every other token account is
/// untouched, and no mint record changes — so no transfer ever changes a
/// supply.
pub proof fn lemma_transfer_conserves(l: LedgerModel, ctx: TransferTokens, amount: u64)
    requires
        transfer_error(l, ctx, amount) is None,
    ensures
        transfer_apply(l, ctx, amount).mints == l.mints,
        transfer_apply(l, ctx, amount).accounts[ctx.from.address].balance + transfer_apply(
            l,
            ctx,
            amount,
        ).accounts[ctx.to.address].balance == l.accounts[ctx.from.address].balance + l.accounts[
            ctx.to.address
        ].balance,
        forall|a: u64|
            a != ctx.from.address && a != ctx.to.address ==> #[trigger] transfer_apply(
                l,
                ctx,
                amount,
            ).accounts[a] == l.accounts[a],
{
}

} // verus!

