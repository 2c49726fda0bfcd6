use week_token::instructions::{RENT_SYSVAR_ID, SYSTEM_PROGRAM_ID, TOKEN_PROGRAM_ID};
use week_token::{
    create_token_account, initialize_token, mint_tokens, transfer_tokens, AccountRef, ErrorCode,
    InitializeToken, Ledger, MintTokens, TransferTokens,
};

const MINT_ADDR: u64 = 100;
const OTHER_MINT_ADDR: u64 = 101;
const AUTHORITY: u64 = 10;
const ALICE_ACCOUNT: u64 = 200;
const ALICE: u64 = 20;
const BOB_ACCOUNT: u64 = 201;
const BOB: u64 = 21;

fn signer(address: u64) -> AccountRef {
    AccountRef { address, is_signer: true, is_writable: true }
}

fn writable(address: u64) -> AccountRef {
    AccountRef { address, is_signer: false, is_writable: true }
}

fn init_bundle(mint: u64) -> InitializeToken {
    InitializeToken {
        mint: writable(mint),
        authority: signer(AUTHORITY),
        token_program: TOKEN_PROGRAM_ID,
        system_program: SYSTEM_PROGRAM_ID,
        rent: RENT_SYSVAR_ID,
    }
}

fn transfer_bundle(from: u64, to: u64, authority: u64) -> TransferTokens {
    TransferTokens {
        from: writable(from),
        to: writable(to),
        authority: signer(authority),
        token_program: TOKEN_PROGRAM_ID,
    }
}

/// A ledger with one mint and two accounts; Alice's account starts with the
/// given balance, Bob's starts empty.
fn ledger_with_balance(balance: u64) -> Ledger {
    let mut ledger = Ledger::new();
    initialize_token(&mut ledger, &init_bundle(MINT_ADDR), 9).unwrap();
    create_token_account(&mut ledger, ALICE_ACCOUNT, ALICE, MINT_ADDR).unwrap();
    create_token_account(&mut ledger, BOB_ACCOUNT, BOB, MINT_ADDR).unwrap();
    let mint = MintTokens {
        mint: writable(MINT_ADDR),
        destination: writable(ALICE_ACCOUNT),
        authority: signer(AUTHORITY),
        token_program: TOKEN_PROGRAM_ID,
    };
    mint_tokens(&mut ledger, &mint, balance).unwrap();
    ledger
}

#[test]
fn transfer_rejects_more_than_balance() {
    let mut ledger = ledger_with_balance(5);
    assert_eq!(
        transfer_tokens(&mut ledger, &transfer_bundle(ALICE_ACCOUNT, BOB_ACCOUNT, ALICE), 6),
        Err(ErrorCode::InsufficientBalance)
    );
    assert_eq!(ledger.token_account_record(ALICE_ACCOUNT).unwrap().balance, 5);
    assert_eq!(ledger.token_account_record(BOB_ACCOUNT).unwrap().balance, 0);
}

#[test]
fn transfer_full_balance_empties_source() {
    let mut ledger = ledger_with_balance(7);
    assert_eq!(
        transfer_tokens(&mut ledger, &transfer_bundle(ALICE_ACCOUNT, BOB_ACCOUNT, ALICE), 7),
        Ok(())
    );
    assert_eq!(ledger.token_account_record(ALICE_ACCOUNT).unwrap().balance, 0);
    assert_eq!(ledger.token_account_record(BOB_ACCOUNT).unwrap().balance, 7);
}

#[test]
fn transfer_moves_partial_amount() {
    let mut ledger = ledger_with_balance(10);
    assert_eq!(
        transfer_tokens(&mut ledger, &transfer_bundle(ALICE_ACCOUNT, BOB_ACCOUNT, ALICE), 4),
        Ok(())
    );
    assert_eq!(ledger.token_account_record(ALICE_ACCOUNT).unwrap().balance, 6);
    assert_eq!(ledger.token_account_record(BOB_ACCOUNT).unwrap().balance, 4);
    assert_eq!(ledger.mint_record(MINT_ADDR).unwrap().supply, 10);
}

#[test]
fn transfer_to_self_changes_nothing() {
    let mut ledger = ledger_with_balance(10);
    assert_eq!(
        transfer_tokens(&mut ledger, &transfer_bundle(ALICE_ACCOUNT, ALICE_ACCOUNT, ALICE), 10),
        Ok(())
    );
    assert_eq!(ledger.token_account_record(ALICE_ACCOUNT).unwrap().balance, 10);
}

#[test]
fn transfer_rejects_foreign_owner() {
    let mut ledger = ledger_with_balance(10);
    assert_eq!(
        transfer_tokens(&mut ledger, &transfer_bundle(ALICE_ACCOUNT, BOB_ACCOUNT, BOB), 4),
        Err(ErrorCode::UnauthorizedOwner)
    );
    assert_eq!(ledger.token_account_record(ALICE_ACCOUNT).unwrap().balance, 10);
}

#[test]
fn transfer_rejects_unsigned_owner() {
    let mut ledger = ledger_with_balance(10);
    let mut bundle = transfer_bundle(ALICE_ACCOUNT, BOB_ACCOUNT, ALICE);
    bundle.authority.is_signer = false;
    assert_eq!(
        transfer_tokens(&mut ledger, &bundle, 4),
        Err(ErrorCode::MissingSignature)
    );
}

#[test]
fn transfer_rejects_readonly_accounts() {
    let mut ledger = ledger_with_balance(10);
    let mut bundle = transfer_bundle(ALICE_ACCOUNT, BOB_ACCOUNT, ALICE);
    bundle.from.is_writable = false;
    assert_eq!(
        transfer_tokens(&mut ledger, &bundle, 4),
        Err(ErrorCode::AccountNotWritable)
    );
    let mut bundle = transfer_bundle(ALICE_ACCOUNT, BOB_ACCOUNT, ALICE);
    bundle.to.is_writable = false;
    assert_eq!(
        transfer_tokens(&mut ledger, &bundle, 4),
        Err(ErrorCode::AccountNotWritable)
    );
}

#[test]
fn transfer_rejects_wrong_token_program() {
    let mut ledger = ledger_with_balance(10);
    let mut bundle = transfer_bundle(ALICE_ACCOUNT, BOB_ACCOUNT, ALICE);
    bundle.token_program = 77;
    assert_eq!(
        transfer_tokens(&mut ledger, &bundle, 4),
        Err(ErrorCode::IncorrectProgramId)
    );
}

#[test]
fn transfer_rejects_missing_accounts() {
    let mut ledger = Ledger::new();
    initialize_token(&mut ledger, &init_bundle(MINT_ADDR), 9).unwrap();
    assert_eq!(
        transfer_tokens(&mut ledger, &transfer_bundle(ALICE_ACCOUNT, BOB_ACCOUNT, ALICE), 4),
        Err(ErrorCode::AccountNotFound)
    );
    create_token_account(&mut ledger, ALICE_ACCOUNT, ALICE, MINT_ADDR).unwrap();
    assert_eq!(
        transfer_tokens(&mut ledger, &transfer_bundle(ALICE_ACCOUNT, BOB_ACCOUNT, ALICE), 4),
        Err(ErrorCode::AccountNotFound)
    );
}

#[test]
fn transfer_rejects_mixed_mints() {
    let mut ledger = ledger_with_balance(10);
    initialize_token(&mut ledger, &init_bundle(OTHER_MINT_ADDR), 9).unwrap();
    create_token_account(&mut ledger, 300, BOB, OTHER_MINT_ADDR).unwrap();
    assert_eq!(
        transfer_tokens(&mut ledger, &transfer_bundle(ALICE_ACCOUNT, 300, ALICE), 4),
        Err(ErrorCode::MintMismatch)
    );
}
