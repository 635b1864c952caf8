use hoard_token::contexts::{
    BurnTokens, Initialize, InitializeAccountContext, InitializeMintContext, MintTokens,
    TransferTokens,
};
use hoard_token::hoard_token::{burn, initialize, initialize_account, initialize_mint, mint, transfer};
use hoard_token::ledger::{Ledger, Record};

const AUTHORITY: u64 = 7;

fn ledger_with_token(total_supply: u64) -> Ledger {
    let mut ledger = Ledger::new(8);
    let ctx = Initialize { mint: 0, initial_token_account: 1, authority: AUTHORITY };
    initialize(&ctx, &mut ledger, total_supply).unwrap();
    ledger
}

fn add_account(ledger: &mut Ledger, account: usize, owner: u64) {
    let ctx = InitializeAccountContext { account, mint: 0, owner };
    initialize_account(&ctx, ledger).unwrap();
}

#[test]
fn test_initialize() {
    let total_supply = 1_000_000_000;
    let ledger = ledger_with_token(total_supply);
    let mint_data = ledger.get_mint(0).unwrap();
    assert_eq!(mint_data.supply, total_supply);
    assert_eq!(mint_data.decimals, 9);
    assert_eq!(mint_data.mint_authority, Some(AUTHORITY));
    assert_eq!(ledger.get_account(1).unwrap().amount, total_supply);
}

#[test]
fn test_mint() {
    let mut ledger = ledger_with_token(0);
    add_account(&mut ledger, 2, 11);
    let amount = 100;
    let ctx = MintTokens { mint: 0, to: 2, authority: AUTHORITY };
    mint(&ctx, &mut ledger, amount).unwrap();
    let token_data = ledger.get_account(2).unwrap();
    assert_eq!(token_data.amount, amount);
    assert_eq!(ledger.get_mint(0).unwrap().supply, amount);
}

#[test]
fn test_burn() {
    let amount = 50;
    let mut ledger = ledger_with_token(amount);
    let ctx = BurnTokens { mint: 0, from: 1, authority: AUTHORITY };
    burn(&ctx, &mut ledger, amount).unwrap();
    let token_data = ledger.get_account(1).unwrap();
    assert_eq!(token_data.amount, 0);
    assert_eq!(ledger.get_mint(0).unwrap().supply, 0);
}

#[test]
fn test_transfer() {
    let amount = 100;
    let mut ledger = ledger_with_token(amount);
    add_account(&mut ledger, 2, 11);
    add_account(&mut ledger, 3, 12);
    add_account(&mut ledger, 4, 13);
    let ctx = TransferTokens {
        from: 1,
        to: 2,
        ecosystem_treasury: 3,
        reward_treasury: 4,
        authority: AUTHORITY,
    };
    transfer(&ctx, &mut ledger, amount).unwrap();
    let from_token_data = ledger.get_account(1).unwrap();
    let to_token_data = ledger.get_account(2).unwrap();
    assert_eq!(from_token_data.amount, 0);
    assert_eq!(to_token_data.amount, 96);
    assert_eq!(ledger.get_account(3).unwrap().amount, 2);
    assert_eq!(ledger.get_account(4).unwrap().amount, 2);
}

#[test]
fn test_initialize_account() {
    let mut ledger = Ledger::new(4);
    let mint_ctx = InitializeMintContext { mint: 0, mint_authority: AUTHORITY };
    initialize_mint(&mint_ctx, &mut ledger, 6).unwrap();
    assert_eq!(ledger.get_mint(0).unwrap().decimals, 6);
    add_account(&mut ledger, 1, 11);
    let token_data = ledger.get_account(1).unwrap();
    assert!(matches!(ledger.record(1), Record::Account(_)));
    assert_eq!(token_data.owner, 11);
    assert_eq!(token_data.mint, 0);
    assert_eq!(token_data.amount, 0);
    assert_eq!(token_data.delegate, None);
    assert!(!token_data.frozen);
}
