//! The ledger store and the three instructions — mint initialization,
//! minting and transfer — with the checks each instruction makes and the
//! exact effect each one has on the ledger.

use crate::state::{AccountRef, LedgerModel, Mint, TokenAccount};
use std::collections::HashMap;
use vstd::prelude::*;

verus! {

broadcast use vstd::std_specs::hash::group_hash_axioms;

/// The account store: every mint and token account, indexed by address.
pub struct Ledger {
    mints: HashMap<u64, Mint>,
    accounts: HashMap<u64, TokenAccount>,
}

impl View for Ledger {
    type V = LedgerModel;

    closed spec fn view(&self) -> LedgerModel {
        LedgerModel { mints: self.mints@, accounts: self.accounts@ }
    }
}

impl Ledger {
    /// An empty ledger: no mint and no token account.
    pub fn new() -> (r: Ledger)
        ensures
            r@.mints == Map::<u64, Mint>::empty(),
            r@.accounts == Map::<u64, TokenAccount>::empty(),
            r@.wf(),
    {
        Ledger { mints: HashMap::new(), accounts: HashMap::new() }
    }

    /// The mint record stored at `address`, if any.
    pub fn mint_record(&self, address: u64) -> (r: Option<Mint>)
        ensures
            r == if self@.mints.contains_key(address) {
                Some(self@.mints[address])
            } else {
                None::<Mint>
            },
    {
        match self.mints.get(&address) {
            Some(m) => Some(*m),
            None => None,
        }
    }

    /// The token-account record stored at `address`, if any.
    pub fn token_account_record(&self, address: u64) -> (r: Option<TokenAccount>)
        ensures
            r == if self@.accounts.contains_key(address) {
                Some(self@.accounts[address])
            } else {
                None::<TokenAccount>
            },
    {
        match self.accounts.get(&address) {
            Some(a) => Some(*a),
            None => None,
        }
    }
}

/// Address of the external token program that every instruction must name.
pub const TOKEN_PROGRAM_ID: u64 = 1;

/// Address of the system service that creates and funds new accounts.
pub const SYSTEM_PROGRAM_ID: u64 = 2;

/// Address of the rent sysvar consulted when a new account is funded.
pub const RENT_SYSVAR_ID: u64 = 3;

/// Decimal precision of every mint this program initializes. The `decimals`
/// argument of `initialize_token` is accepted and ignored: the stored
/// precision is always this constant.
pub const MINT_DECIMALS: u8 = 9;

/// Why an instruction was rejected. Every rejection leaves the ledger
/// exactly as it was.
#[derive(Clone, Copy, PartialEq, Eq, Structural, Debug)]
pub enum ErrorCode {
    /// A transfer asked for more than the source balance holds.
    InsufficientBalance,
    /// A mint instruction was signed by an identity other than the mint's
    /// recorded authority.
    UnauthorizedMintAuthority,
    /// Account creation was asked for at an address already in use.
    AccountAlreadyInUse,
    /// An instruction named an address at which no record of the expected
    /// kind exists.
    AccountNotFound,
    /// A token account belongs to a different mint than the instruction
    /// named.
    MintMismatch,
    /// A transfer was signed by an identity other than the source account's
    /// owner.
    UnauthorizedOwner,
    /// A required signature is missing from the account bundle.
    MissingSignature,
    /// An account that the instruction must write was not marked writable.
    AccountNotWritable,
    /// The bundle named the wrong address for a required program or sysvar.
    IncorrectProgramId,
    /// Crediting the amount would push a balance or a supply past `u64::MAX`.
    ArithmeticOverflow,
}

/// Account bundle for mint initialization: the fresh mint account, the
/// funding signer that becomes the mint authority, and the three services
/// account creation needs.
#[derive(Clone, Copy, PartialEq, Eq, Structural, Debug)]
pub struct InitializeToken {
    pub mint: AccountRef,
    pub authority: AccountRef,
    pub token_program: u64,
    pub system_program: u64,
    pub rent: u64,
}

/// Account bundle for minting: the mint, the destination token account, the
/// authority signer, and the token program.
#[derive(Clone, Copy, PartialEq, Eq, Structural, Debug)]
pub struct MintTokens {
    pub mint: AccountRef,
    pub destination: AccountRef,
    pub authority: AccountRef,
    pub token_program: u64,
}

/// Account bundle for a transfer: the source and destination token accounts,
/// the authority signer, and the token program.
#[derive(Clone, Copy, PartialEq, Eq, Structural, Debug)]
pub struct TransferTokens {
    pub from: AccountRef,
    pub to: AccountRef,
    pub authority: AccountRef,
    pub token_program: u64,
}

/// The declarative constraints on the initialization bundle: the new mint
/// account is written, the funding authority signs and is written (it pays),
/// and the three service addresses are the well-known ones.
pub open spec fn initialize_constraints_ok(ctx: InitializeToken) -> bool {
    &&& ctx.mint.is_writable
    &&& ctx.authority.is_signer
    &&& ctx.authority.is_writable
    &&& ctx.token_program == TOKEN_PROGRAM_ID
    &&& ctx.system_program == SYSTEM_PROGRAM_ID
    &&& ctx.rent == RENT_SYSVAR_ID
}

/// The first reason initialization is rejected, or `None` when it succeeds.
/// Bundle constraints are checked first, then the host rule that the new
/// address must not already hold any record.
pub open spec fn initialize_error(l: LedgerModel, ctx: InitializeToken) -> Option<ErrorCode> {
    if !ctx.mint.is_writable {
        Some(ErrorCode::AccountNotWritable)
    } else if !ctx.authority.is_signer {
        Some(ErrorCode::MissingSignature)
    } else if !ctx.authority.is_writable {
        Some(ErrorCode::AccountNotWritable)
    } else if ctx.token_program != TOKEN_PROGRAM_ID || ctx.system_program != SYSTEM_PROGRAM_ID
        || ctx.rent != RENT_SYSVAR_ID {
        Some(ErrorCode::IncorrectProgramId)
    } else if l.mints.contains_key(ctx.mint.address) || l.accounts.contains_key(ctx.mint.address) {
        Some(ErrorCode::AccountAlreadyInUse)
    } else {
        None
    }
}

/// The ledger after a successful initialization: one new mint record whose
/// precision is `MINT_DECIMALS`, whose authority is the funding signer, and
/// whose supply is zero. The `decimals` argument of the instruction plays no
/// part here.
pub open spec fn initialize_apply(l: LedgerModel, ctx: InitializeToken) -> LedgerModel {
    LedgerModel {
        mints: l.mints.insert(
            ctx.mint.address,
            Mint { authority: ctx.authority.address, decimals: MINT_DECIMALS, supply: 0 },
        ),
        accounts: l.accounts,
    }
}

/// Initialize a new mint. The supplied `decimals` is accepted and ignored:
/// the created mint always has precision `MINT_DECIMALS`.
pub fn initialize_token(ledger: &mut Ledger, ctx: &InitializeToken, decimals: u8) -> (r: Result<
    (),
    ErrorCode,
>)
    ensures
        match r {
            Ok(()) => initialize_error(old(ledger)@, *ctx) is None && final(ledger)@
                == initialize_apply(old(ledger)@, *ctx),
            Err(e) => initialize_error(old(ledger)@, *ctx) == Some(e) && final(ledger)@ == old(ledger)@,
        },
        old(ledger)@.wf() ==> final(ledger)@.wf(),
{
    if !ctx.mint.is_writable {
        return Err(ErrorCode::AccountNotWritable);
    }
    if !ctx.authority.is_signer {
        return Err(ErrorCode::MissingSignature);
    }
    if !ctx.authority.is_writable {
        return Err(ErrorCode::AccountNotWritable);
    }
    if ctx.token_program != TOKEN_PROGRAM_ID || ctx.system_program != SYSTEM_PROGRAM_ID
        || ctx.rent != RENT_SYSVAR_ID {
        return Err(ErrorCode::IncorrectProgramId);
    }
    if ledger.mints.contains_key(&ctx.mint.address) || ledger.accounts.contains_key(
        &ctx.mint.address,
    ) {
        return Err(ErrorCode::AccountAlreadyInUse);
    }
    let record = Mint { authority: ctx.authority.address, decimals: MINT_DECIMALS, supply: 0 };
    ledger.mints.insert(ctx.mint.address, record);
    proof {
        if old(ledger)@.wf() {
            assert forall|a: u64| #[trigger] ledger@.accounts.contains_key(a) implies ledger@
                .mints.contains_key(ledger@.accounts[a].mint) by {
                assert(old(ledger)@.accounts.contains_key(a));
                assert(old(ledger)@.mints.contains_key(old(ledger)@.accounts[a].mint));
            }
        }
    }
    Ok(())
}

/// The first reason creating a token account is rejected, or `None` when it
/// succeeds: the address must be free and the mint must exist.
pub open spec fn create_account_error(l: LedgerModel, address: u64, mint: u64) -> Option<
    ErrorCode,
> {
    if l.mints.contains_key(address) || l.accounts.contains_key(address) {
        Some(ErrorCode::AccountAlreadyInUse)
    } else if !l.mints.contains_key(mint) {
        Some(ErrorCode::AccountNotFound)
    } else {
        None
    }
}

/// The ledger after a token account is created: one new record with a zero
/// balance for `owner` under `mint`.
pub open spec fn create_account_apply(
    l: LedgerModel,
    address: u64,
    owner: u64,
    mint: u64,
) -> LedgerModel {
    LedgerModel {
        mints: l.mints,
        accounts: l.accounts.insert(address, TokenAccount { owner, mint, balance: 0 }),
    }
}

/// Create an empty token account for `owner` under `mint` at `address`. This
/// is the effect of the external account-creation service on the ledger: the
/// mint and transfer instructions expect the account to exist already.
pub fn create_token_account(ledger: &mut Ledger, address: u64, owner: u64, mint: u64) -> (r:
    Result<(), ErrorCode>)
    ensures
        match r {
            Ok(()) => create_account_error(old(ledger)@, address, mint) is None && final(ledger)@
                == create_account_apply(old(ledger)@, address, owner, mint),
            Err(e) => create_account_error(old(ledger)@, address, mint) == Some(e) && final(ledger)@ == old(ledger)@,
        },
        old(ledger)@.wf() ==> final(ledger)@.wf(),
{
    if ledger.mints.contains_key(&address) || ledger.accounts.contains_key(&address) {
        return Err(ErrorCode::AccountAlreadyInUse);
    }
    if !ledger.mints.contains_key(&mint) {
        return Err(ErrorCode::AccountNotFound);
    }
    ledger.accounts.insert(address, TokenAccount { owner, mint, balance: 0 });
    proof {
        if old(ledger)@.wf() {
            assert forall|a: u64| #[trigger] ledger@.accounts.contains_key(a) implies ledger@
                .mints.contains_key(ledger@.accounts[a].mint) by {
                if a != address {
                    assert(old(ledger)@.accounts.contains_key(a));
                }
            }
        }
    }
    Ok(())
}

/// The declarative constraints on the minting bundle: mint, destination and
/// the fee-paying authority are written, the authority signs, and the token
/// program address is the well-known one.
pub open spec fn mint_constraints_ok(ctx: MintTokens) -> bool {
    &&& ctx.mint.is_writable
    &&& ctx.destination.is_writable
    &&& ctx.authority.is_signer
    &&& ctx.authority.is_writable
    &&& ctx.token_program == TOKEN_PROGRAM_ID
}

/// The first reason minting is rejected, or `None` when it succeeds. Bundle
/// constraints come first, then existence of the two records, then the token
/// rules: the destination must belong to the named mint, the signer must be
/// the recorded mint authority, and neither the supply nor the destination
/// balance may overflow. The amount itself is never rejected: zero is
/// accepted like any other value.
pub open spec fn mint_error(l: LedgerModel, ctx: MintTokens, amount: u64) -> Option<ErrorCode> {
    if !ctx.mint.is_writable {
        Some(ErrorCode::AccountNotWritable)
    } else if !ctx.destination.is_writable {
        Some(ErrorCode::AccountNotWritable)
    } else if !ctx.authority.is_signer {
        Some(ErrorCode::MissingSignature)
    } else if !ctx.authority.is_writable {
        Some(ErrorCode::AccountNotWritable)
    } else if ctx.token_program != TOKEN_PROGRAM_ID {
        Some(ErrorCode::IncorrectProgramId)
    } else if !l.mints.contains_key(ctx.mint.address) {
        Some(ErrorCode::AccountNotFound)
    } else if !l.accounts.contains_key(ctx.destination.address) {
        Some(ErrorCode::AccountNotFound)
    } else if l.accounts[ctx.destination.address].mint != ctx.mint.address {
        Some(ErrorCode::MintMismatch)
    } else if ctx.authority.address != l.mints[ctx.mint.address].authority {
        Some(ErrorCode::UnauthorizedMintAuthority)
    } else if l.mints[ctx.mint.address].supply + amount > u64::MAX {
        Some(ErrorCode::ArithmeticOverflow)
    } else if l.accounts[ctx.destination.address].balance + amount > u64::MAX {
        Some(ErrorCode::ArithmeticOverflow)
    } else {
        None
    }
}

/// The ledger after a successful mint: the destination balance and the
/// mint's supply each grow by exactly `amount`; authority, precision, owner
/// and mint reference stay as they were.
pub open spec fn mint_apply(l: LedgerModel, ctx: MintTokens, amount: u64) -> LedgerModel {
    let m = l.mints[ctx.mint.address];
    let d = l.accounts[ctx.destination.address];
    LedgerModel {
        mints: l.mints.insert(
            ctx.mint.address,
            Mint {
                authority: m.authority,
                decimals: m.decimals,
                supply: (m.supply + amount) as u64,
            },
        ),
        accounts: l.accounts.insert(
            ctx.destination.address,
            TokenAccount { owner: d.owner, mint: d.mint, balance: (d.balance + amount) as u64 },
        ),
    }
}

/// Mint `amount` tokens to the destination account, growing the supply by
/// the same amount. Only the recorded mint authority may mint.
pub fn mint_tokens(ledger: &mut Ledger, ctx: &MintTokens, amount: u64) -> (r: Result<
    (),
    ErrorCode,
>)
    ensures
        match r {
            Ok(()) => mint_error(old(ledger)@, *ctx, amount) is None && final(ledger)@
                == mint_apply(old(ledger)@, *ctx, amount),
            Err(e) => mint_error(old(ledger)@, *ctx, amount) == Some(e) && final(ledger)@ == old(ledger)@,
        },
        old(ledger)@.wf() ==> final(ledger)@.wf(),
{
    if !ctx.mint.is_writable {
        return Err(ErrorCode::AccountNotWritable);
    }
    if !ctx.destination.is_writable {
        return Err(ErrorCode::AccountNotWritable);
    }
    if !ctx.authority.is_signer {
        return Err(ErrorCode::MissingSignature);
    }
    if !ctx.authority.is_writable {
        return Err(ErrorCode::AccountNotWritable);
    }
    if ctx.token_program != TOKEN_PROGRAM_ID {
        return Err(ErrorCode::IncorrectProgramId);
    }
    let m: Mint = match ledger.mints.get(&ctx.mint.address) {
        Some(m) => *m,
        None => {
            return Err(ErrorCode::AccountNotFound);
        },
    };
    let d: TokenAccount = match ledger.accounts.get(&ctx.destination.address) {
        Some(a) => *a,
        None => {
            return Err(ErrorCode::AccountNotFound);
        },
    };
    if d.mint != ctx.mint.address {
        return Err(ErrorCode::MintMismatch);
    }
    if ctx.authority.address != m.authority {
        return Err(ErrorCode::UnauthorizedMintAuthority);
    }
    if amount > u64::MAX - m.supply {
        return Err(ErrorCode::ArithmeticOverflow);
    }
    if amount > u64::MAX - d.balance {
        return Err(ErrorCode::ArithmeticOverflow);
    }
    ledger.mints.insert(
        ctx.mint.address,
        Mint { authority: m.authority, decimals: m.decimals, supply: m.supply + amount },
    );
    ledger.accounts.insert(
        ctx.destination.address,
        TokenAccount { owner: d.owner, mint: d.mint, balance: d.balance + amount },
    );
    proof {
        if old(ledger)@.wf() {
            assert forall|a: u64| #[trigger] ledger@.accounts.contains_key(a) implies ledger@
                .mints.contains_key(ledger@.accounts[a].mint) by {
                if a != ctx.destination.address {
                    assert(old(ledger)@.accounts.contains_key(a));
                }
            }
            assert forall|a: u64| #[trigger] ledger@.mints.contains_key(a) implies !ledger@
                .accounts.contains_key(a) by {
                assert(old(ledger)@.mints.contains_key(a));
            }
        }
    }
    Ok(())
}

/// The declarative constraints on the transfer bundle: source and
/// destination are written, the authority signs, and the token program
/// address is the well-known one.
pub open spec fn transfer_constraints_ok(ctx: TransferTokens) -> bool {
    &&& ctx.from.is_writable
    &&& ctx.to.is_writable
    &&& ctx.authority.is_signer
    &&& ctx.token_program == TOKEN_PROGRAM_ID
}

/// The first reason a transfer is rejected, or `None` when it succeeds.
/// Bundle constraints come first, then existence of both accounts, then the
/// token rules: both accounts must hold the same mint, the signer must own
/// the source, the amount must not exceed the source balance, and — for two
/// distinct accounts — the destination balance must not overflow.
pub open spec fn transfer_error(l: LedgerModel, ctx: TransferTokens, amount: u64) -> Option<
    ErrorCode,
> {
    if !ctx.from.is_writable {
        Some(ErrorCode::AccountNotWritable)
    } else if !ctx.to.is_writable {
        Some(ErrorCode::AccountNotWritable)
    } else if !ctx.authority.is_signer {
        Some(ErrorCode::MissingSignature)
    } else if ctx.token_program != TOKEN_PROGRAM_ID {
        Some(ErrorCode::IncorrectProgramId)
    } else if !l.accounts.contains_key(ctx.from.address) {
        Some(ErrorCode::AccountNotFound)
    } else if !l.accounts.contains_key(ctx.to.address) {
        Some(ErrorCode::AccountNotFound)
    } else if l.accounts[ctx.from.address].mint != l.accounts[ctx.to.address].mint {
        Some(ErrorCode::MintMismatch)
    } else if ctx.authority.address != l.accounts[ctx.from.address].owner {
        Some(ErrorCode::UnauthorizedOwner)
    } else if amount > l.accounts[ctx.from.address].balance {
        Some(ErrorCode::InsufficientBalance)
    } else if ctx.from.address != ctx.to.address && l.accounts[ctx.to.address].balance + amount
        > u64::MAX {
        Some(ErrorCode::ArithmeticOverflow)
    } else {
        None
    }
}

/// The ledger after a successful transfer: `amount` moves from the source
/// balance to the destination balance; a transfer from an account to itself
/// changes nothing. The mint records — supply included — are untouched.
pub open spec fn transfer_apply(l: LedgerModel, ctx: TransferTokens, amount: u64) -> LedgerModel {
    if ctx.from.address == ctx.to.address {
        l
    } else {
        let f = l.accounts[ctx.from.address];
        let t = l.accounts[ctx.to.address];
        LedgerModel {
            mints: l.mints,
            accounts: l.accounts.insert(
                ctx.from.address,
                TokenAccount { owner: f.owner, mint: f.mint, balance: (f.balance - amount) as u64 },
            ).insert(
                ctx.to.address,
                TokenAccount { owner: t.owner, mint: t.mint, balance: (t.balance + amount) as u64 },
            ),
        }
    }
}

/// Move `amount` tokens from the source account to the destination account.
/// Only the owner of the source may transfer, and never more than the
/// source balance.
pub fn transfer_tokens(ledger: &mut Ledger, ctx: &TransferTokens, amount: u64) -> (r: Result<
    (),
    ErrorCode,
>)
    ensures
        match r {
            Ok(()) => transfer_error(old(ledger)@, *ctx, amount) is None && final(ledger)@
                == transfer_apply(old(ledger)@, *ctx, amount),
            Err(e) => transfer_error(old(ledger)@, *ctx, amount) == Some(e) && final(ledger)@
                == old(ledger)@,
        },
        old(ledger)@.wf() ==> final(ledger)@.wf(),
{
    if !ctx.from.is_writable {
        return Err(ErrorCode::AccountNotWritable);
    }
    if !ctx.to.is_writable {
        return Err(ErrorCode::AccountNotWritable);
    }
    if !ctx.authority.is_signer {
        return Err(ErrorCode::MissingSignature);
    }
    if ctx.token_program != TOKEN_PROGRAM_ID {
        return Err(ErrorCode::IncorrectProgramId);
    }
    let f: TokenAccount = match ledger.accounts.get(&ctx.from.address) {
        Some(a) => *a,
        None => {
            return Err(ErrorCode::AccountNotFound);
        },
    };
    let t: TokenAccount = match ledger.accounts.get(&ctx.to.address) {
        Some(a) => *a,
        None => {
            return Err(ErrorCode::AccountNotFound);
        },
    };
    if f.mint != t.mint {
        return Err(ErrorCode::MintMismatch);
    }
    if ctx.authority.address != f.owner {
        return Err(ErrorCode::UnauthorizedOwner);
    }
    if amount > f.balance {
        return Err(ErrorCode::InsufficientBalance);
    }
    if ctx.from.address == ctx.to.address {
        return Ok(());
    }
    if amount > u64::MAX - t.balance {
        return Err(ErrorCode::ArithmeticOverflow);
    }
    ledger.accounts.insert(
        ctx.from.address,
        TokenAccount { owner: f.owner, mint: f.mint, balance: f.balance - amount },
    );
    ledger.accounts.insert(
        ctx.to.address,
        TokenAccount { owner: t.owner, mint: t.mint, balance: t.balance + amount },
    );
    proof {
        if old(ledger)@.wf() {
            assert forall|a: u64| #[trigger] ledger@.accounts.contains_key(a) implies ledger@
                .mints.contains_key(ledger@.accounts[a].mint) by {
                if a != ctx.from.address && a != ctx.to.address {
                    assert(old(ledger)@.accounts.contains_key(a));
                }
            }
            assert forall|a: u64| #[trigger] ledger@.mints.contains_key(a) implies !ledger@
                .accounts.contains_key(a) by {
                assert(old(ledger)@.mints.contains_key(a));
            }
        }
    }
    Ok(())
}

} // verus!
