use hoard_token::contexts::{
    ApproveContext, BurnTokens, CloseAccountContext, Initialize, InitializeAccountContext,
    MintTokens, RevokeContext, SetAuthorityContext, TransferTokens,
};
use hoard_token::hoard_token::{
    approve, burn, close_account, initialize, initialize_account, mint, revoke, set_authority,
    transfer,
};
use hoard_token::ledger::{Ledger, Record};
use hoard_token::types::{AuthorityType, TokenError};

const OWNER: u64 = 7;
const FREEZER: u64 = 8;

/// Mint at 0 (freeze authority FREEZER) and accounts 1..=4 of owners 11..=14.
fn ledger_with_accounts() -> Ledger {
    let mut ledger = Ledger::new(8);
    ledger.init_mint(0, 9, OWNER, Some(FREEZER)).unwrap();
    for i in 1..5usize {
        let ctx = InitializeAccountContext { account: i, mint: 0, owner: 10 + i as u64 };
        initialize_account(&ctx, &mut ledger).unwrap();
    }
    ledger
}

fn balance(ledger: &Ledger, account: usize) -> u64 {
    ledger.get_account(account).unwrap().amount
}

fn fund(ledger: &mut Ledger, account: usize, amount: u64) {
    let ctx = MintTokens { mint: 0, to: account, authority: OWNER };
    mint(&ctx, ledger, amount).unwrap();
}

fn split_transfer_from_one(authority: u64) -> TransferTokens {
    TransferTokens { from: 1, to: 2, ecosystem_treasury: 3, reward_treasury: 4, authority }
}

#[test]
fn end_to_end_initialize_then_split_transfer() {
    let mut ledger = Ledger::new(8);
    let init = Initialize { mint: 0, initial_token_account: 1, authority: OWNER };
    initialize(&init, &mut ledger, 1_000_000_000).unwrap();
    let m = ledger.get_mint(0).unwrap();
    assert_eq!(m.supply, 1_000_000_000);
    assert_eq!(m.decimals, 9);
    assert_eq!(m.mint_authority, Some(OWNER));
    for i in 2..5usize {
        let ctx = InitializeAccountContext { account: i, mint: 0, owner: 20 + i as u64 };
        initialize_account(&ctx, &mut ledger).unwrap();
    }
    let ctx = TransferTokens { from: 1, to: 2, ecosystem_treasury: 3, reward_treasury: 4, authority: OWNER };
    transfer(&ctx, &mut ledger, 100).unwrap();
    assert_eq!(balance(&ledger, 2), 96);
    assert_eq!(balance(&ledger, 3), 2);
    assert_eq!(balance(&ledger, 4), 2);
    assert_eq!(balance(&ledger, 1), 999_999_900);
    assert_eq!(ledger.get_mint(0).unwrap().supply, 1_000_000_000);
}

#[test]
fn transfer_with_frozen_ecosystem_treasury_changes_nothing() {
    let mut ledger = ledger_with_accounts();
    fund(&mut ledger, 1, 1_000);
    ledger.freeze_account(3, 0, FREEZER).unwrap();
    let before: Vec<Record> = (0..8).map(|i| ledger.record(i)).collect();
    let r = transfer(&split_transfer_from_one(11), &mut ledger, 100);
    assert_eq!(r, Err(TokenError::TransferFailed));
    let now: Vec<Record> = (0..8).map(|i| ledger.record(i)).collect();
    assert_eq!(before, now);
    assert_eq!(balance(&ledger, 1), 1_000);
    assert_eq!(balance(&ledger, 2), 0);
    assert_eq!(balance(&ledger, 4), 0);
}

#[test]
fn transfer_with_insufficient_balance_fails() {
    let mut ledger = ledger_with_accounts();
    fund(&mut ledger, 1, 99);
    let r = transfer(&split_transfer_from_one(11), &mut ledger, 100);
    assert_eq!(r, Err(TokenError::InsufficientBalance));
    assert_eq!(balance(&ledger, 1), 99);
}

#[test]
fn transfer_by_stranger_fails() {
    let mut ledger = ledger_with_accounts();
    fund(&mut ledger, 1, 1_000);
    let r = transfer(&split_transfer_from_one(99), &mut ledger, 100);
    assert_eq!(r, Err(TokenError::Unauthorized));
    assert_eq!(balance(&ledger, 1), 1_000);
}

#[test]
fn transfer_of_small_amount_sends_zero_fees() {
    let mut ledger = ledger_with_accounts();
    fund(&mut ledger, 1, 30);
    transfer(&split_transfer_from_one(11), &mut ledger, 24).unwrap();
    assert_eq!(balance(&ledger, 1), 6);
    assert_eq!(balance(&ledger, 2), 24);
    assert_eq!(balance(&ledger, 3), 0);
    assert_eq!(balance(&ledger, 4), 0);
}

#[test]
fn transfer_of_huge_amount_overflows() {
    let mut ledger = ledger_with_accounts();
    let r = transfer(&split_transfer_from_one(11), &mut ledger, 1u64 << 62);
    assert_eq!(r, Err(TokenError::AmountOverflow));
}

#[test]
fn delegate_moves_within_allowance() {
    let mut ledger = ledger_with_accounts();
    fund(&mut ledger, 1, 1_000);
    let ctx = ApproveContext { source: 1, delegate: 50, owner: 11 };
    approve(&ctx, &mut ledger, 100).unwrap();
    assert_eq!(ledger.get_account(1).unwrap().delegate, Some(50));
    transfer(&split_transfer_from_one(50), &mut ledger, 100).unwrap();
    assert_eq!(balance(&ledger, 1), 900);
    assert_eq!(ledger.get_account(1).unwrap().delegated_amount, 0);
    let r = transfer(&split_transfer_from_one(50), &mut ledger, 1);
    assert_eq!(r, Err(TokenError::Unauthorized));
}

#[test]
fn revoke_clears_delegate() {
    let mut ledger = ledger_with_accounts();
    approve(&ApproveContext { source: 1, delegate: 50, owner: 11 }, &mut ledger, 100).unwrap();
    assert_eq!(
        revoke(&RevokeContext { source: 1, owner: 12 }, &mut ledger),
        Err(TokenError::Unauthorized)
    );
    revoke(&RevokeContext { source: 1, owner: 11 }, &mut ledger).unwrap();
    let a = ledger.get_account(1).unwrap();
    assert_eq!(a.delegate, None);
    assert_eq!(a.delegated_amount, 0);
}

#[test]
fn approve_by_non_owner_is_unauthorized() {
    let mut ledger = ledger_with_accounts();
    let r = approve(&ApproveContext { source: 1, delegate: 50, owner: 12 }, &mut ledger, 5);
    assert_eq!(r, Err(TokenError::Unauthorized));
}

#[test]
fn burn_reduces_balance_and_supply() {
    let mut ledger = ledger_with_accounts();
    fund(&mut ledger, 1, 500);
    let ctx = BurnTokens { mint: 0, from: 1, authority: 11 };
    burn(&ctx, &mut ledger, 120).unwrap();
    assert_eq!(balance(&ledger, 1), 380);
    assert_eq!(ledger.get_mint(0).unwrap().supply, 380);
}

#[test]
fn burn_more_than_balance_fails() {
    let mut ledger = ledger_with_accounts();
    fund(&mut ledger, 1, 500);
    fund(&mut ledger, 2, 500);
    let ctx = BurnTokens { mint: 0, from: 1, authority: 11 };
    assert_eq!(burn(&ctx, &mut ledger, 501), Err(TokenError::InsufficientBalance));
    assert_eq!(balance(&ledger, 1), 500);
    assert_eq!(ledger.get_mint(0).unwrap().supply, 1_000);
}

#[test]
fn mint_by_stranger_is_unauthorized() {
    let mut ledger = ledger_with_accounts();
    let ctx = MintTokens { mint: 0, to: 1, authority: 99 };
    assert_eq!(mint(&ctx, &mut ledger, 1), Err(TokenError::Unauthorized));
}

#[test]
fn mint_past_u64_overflows() {
    let mut ledger = ledger_with_accounts();
    fund(&mut ledger, 1, u64::MAX);
    let ctx = MintTokens { mint: 0, to: 2, authority: OWNER };
    assert_eq!(mint(&ctx, &mut ledger, 1), Err(TokenError::SupplyOverflow));
}

#[test]
fn mint_to_account_of_other_mint_mismatches() {
    let mut ledger = ledger_with_accounts();
    ledger.init_mint(5, 9, OWNER, None).unwrap();
    let ctx = MintTokens { mint: 5, to: 1, authority: OWNER };
    assert_eq!(mint(&ctx, &mut ledger, 1), Err(TokenError::MintMismatch));
}

#[test]
fn mint_to_frozen_account_fails() {
    let mut ledger = ledger_with_accounts();
    ledger.freeze_account(1, 0, FREEZER).unwrap();
    let ctx = MintTokens { mint: 0, to: 1, authority: OWNER };
    assert_eq!(mint(&ctx, &mut ledger, 1), Err(TokenError::AccountFrozen));
}

#[test]
fn initialize_twice_fails() {
    let mut ledger = ledger_with_accounts();
    let init = Initialize { mint: 0, initial_token_account: 5, authority: OWNER };
    assert_eq!(initialize(&init, &mut ledger, 10), Err(TokenError::AlreadyInitialized));
    assert_eq!(ledger.record(5), Record::Empty);
}

#[test]
fn account_of_missing_mint_is_invalid() {
    let mut ledger = Ledger::new(4);
    let ctx = InitializeAccountContext { account: 1, mint: 0, owner: 11 };
    assert_eq!(initialize_account(&ctx, &mut ledger), Err(TokenError::InvalidAccount));
}

#[test]
fn revoking_twice_fails_and_keeps_state() {
    let mut ledger = ledger_with_accounts();
    let ctx = SetAuthorityContext { account_or_mint: 0, current_authority: OWNER };
    set_authority(&ctx, &mut ledger, AuthorityType::MintTokens, None).unwrap();
    assert_eq!(ledger.get_mint(0).unwrap().mint_authority, None);
    let before = ledger.record(0);
    let r = set_authority(&ctx, &mut ledger, AuthorityType::MintTokens, None);
    assert_eq!(r, Err(TokenError::AuthorityAlreadyRevoked));
    let r = set_authority(&ctx, &mut ledger, AuthorityType::MintTokens, Some(OWNER));
    assert_eq!(r, Err(TokenError::AuthorityAlreadyRevoked));
    assert_eq!(ledger.record(0), before);
    let m = MintTokens { mint: 0, to: 1, authority: OWNER };
    assert_eq!(mint(&m, &mut ledger, 1), Err(TokenError::Unauthorized));
}

#[test]
fn set_authority_reassigns_owner_and_freezer() {
    let mut ledger = ledger_with_accounts();
    let acct = SetAuthorityContext { account_or_mint: 1, current_authority: 11 };
    set_authority(&acct, &mut ledger, AuthorityType::AccountOwner, Some(40)).unwrap();
    assert_eq!(ledger.get_account(1).unwrap().owner, 40);
    let mint_ctx = SetAuthorityContext { account_or_mint: 0, current_authority: FREEZER };
    set_authority(&mint_ctx, &mut ledger, AuthorityType::FreezeAccount, Some(41)).unwrap();
    assert_eq!(ledger.get_mint(0).unwrap().freeze_authority, Some(41));
}

#[test]
fn set_authority_errors() {
    let mut ledger = ledger_with_accounts();
    let empty = SetAuthorityContext { account_or_mint: 6, current_authority: OWNER };
    assert_eq!(
        set_authority(&empty, &mut ledger, AuthorityType::MintTokens, None),
        Err(TokenError::InvalidAccountType)
    );
    let mint_ctx = SetAuthorityContext { account_or_mint: 0, current_authority: OWNER };
    assert_eq!(
        set_authority(&mint_ctx, &mut ledger, AuthorityType::AccountOwner, Some(1)),
        Err(TokenError::InvalidAuthorityType)
    );
    let acct = SetAuthorityContext { account_or_mint: 1, current_authority: 11 };
    assert_eq!(
        set_authority(&acct, &mut ledger, AuthorityType::MintTokens, Some(1)),
        Err(TokenError::InvalidAuthorityType)
    );
    let wrong = SetAuthorityContext { account_or_mint: 1, current_authority: 12 };
    assert_eq!(
        set_authority(&wrong, &mut ledger, AuthorityType::CloseAccount, None),
        Err(TokenError::Unauthorized)
    );
}

#[test]
fn close_account_rules() {
    let mut ledger = ledger_with_accounts();
    fund(&mut ledger, 1, 5);
    let ctx = CloseAccountContext { account: 1, destination: 6, authority: 11 };
    assert_eq!(close_account(&ctx, &mut ledger), Err(TokenError::AccountNotEmpty));
    let stranger = CloseAccountContext { account: 2, destination: 6, authority: 11 };
    assert_eq!(close_account(&stranger, &mut ledger), Err(TokenError::Unauthorized));
    let ctx2 = CloseAccountContext { account: 2, destination: 6, authority: 12 };
    close_account(&ctx2, &mut ledger).unwrap();
    assert_eq!(ledger.record(2), Record::Empty);
}

#[test]
fn frozen_account_refuses_approve_revoke_and_set_authority() {
    let mut ledger = ledger_with_accounts();
    approve(&ApproveContext { source: 1, delegate: 50, owner: 11 }, &mut ledger, 5).unwrap();
    ledger.freeze_account(1, 0, FREEZER).unwrap();
    let r = approve(&ApproveContext { source: 1, delegate: 51, owner: 11 }, &mut ledger, 5);
    assert_eq!(r, Err(TokenError::AccountFrozen));
    let r = revoke(&RevokeContext { source: 1, owner: 11 }, &mut ledger);
    assert_eq!(r, Err(TokenError::AccountFrozen));
    let ctx = SetAuthorityContext { account_or_mint: 1, current_authority: 11 };
    let r = set_authority(&ctx, &mut ledger, AuthorityType::AccountOwner, Some(40));
    assert_eq!(r, Err(TokenError::AccountFrozen));
    let a = ledger.get_account(1).unwrap();
    assert_eq!(a.delegate, Some(50));
    assert_eq!(a.owner, 11);
}

#[test]
fn transfer_by_delegate_over_allowance_is_unauthorized() {
    let mut ledger = ledger_with_accounts();
    fund(&mut ledger, 1, 1_000);
    approve(&ApproveContext { source: 1, delegate: 50, owner: 11 }, &mut ledger, 99).unwrap();
    let r = transfer(&split_transfer_from_one(50), &mut ledger, 100);
    assert_eq!(r, Err(TokenError::Unauthorized));
    assert_eq!(balance(&ledger, 1), 1_000);
}

#[test]
fn owner_change_clears_delegate() {
    let mut ledger = ledger_with_accounts();
    fund(&mut ledger, 1, 1_000);
    approve(&ApproveContext { source: 1, delegate: 50, owner: 11 }, &mut ledger, 500).unwrap();
    let ctx = SetAuthorityContext { account_or_mint: 1, current_authority: 11 };
    set_authority(&ctx, &mut ledger, AuthorityType::AccountOwner, Some(40)).unwrap();
    let a = ledger.get_account(1).unwrap();
    assert_eq!(a.owner, 40);
    assert_eq!(a.delegate, None);
    assert_eq!(a.delegated_amount, 0);
    let r = transfer(&split_transfer_from_one(50), &mut ledger, 100);
    assert_eq!(r, Err(TokenError::Unauthorized));
}

#[test]
fn close_authority_revocation_is_final() {
    let mut ledger = ledger_with_accounts();
    let ctx = SetAuthorityContext { account_or_mint: 2, current_authority: 12 };
    set_authority(&ctx, &mut ledger, AuthorityType::CloseAccount, Some(60)).unwrap();
    let by_owner = CloseAccountContext { account: 2, destination: 6, authority: 12 };
    assert_eq!(close_account(&by_owner, &mut ledger), Err(TokenError::Unauthorized));
    let ctx = SetAuthorityContext { account_or_mint: 2, current_authority: 60 };
    set_authority(&ctx, &mut ledger, AuthorityType::CloseAccount, None).unwrap();
    assert_eq!(ledger.get_account(2).unwrap().close_authority, None);
    let again = SetAuthorityContext { account_or_mint: 2, current_authority: 12 };
    let before = ledger.record(2);
    let r = set_authority(&again, &mut ledger, AuthorityType::CloseAccount, None);
    assert_eq!(r, Err(TokenError::AuthorityAlreadyRevoked));
    let r = set_authority(&again, &mut ledger, AuthorityType::CloseAccount, Some(12));
    assert_eq!(r, Err(TokenError::AuthorityAlreadyRevoked));
    assert_eq!(ledger.record(2), before);
    close_account(&by_owner, &mut ledger).unwrap();
    assert_eq!(ledger.record(2), Record::Empty);
}

#[test]
fn new_owner_closes_account() {
    let mut ledger = ledger_with_accounts();
    let ctx = SetAuthorityContext { account_or_mint: 3, current_authority: 13 };
    set_authority(&ctx, &mut ledger, AuthorityType::AccountOwner, Some(40)).unwrap();
    let old_owner = CloseAccountContext { account: 3, destination: 6, authority: 13 };
    assert_eq!(close_account(&old_owner, &mut ledger), Err(TokenError::Unauthorized));
    let new_owner = CloseAccountContext { account: 3, destination: 6, authority: 40 };
    close_account(&new_owner, &mut ledger).unwrap();
}

#[test]
fn supply_matches_balances_after_operations() {
    let mut ledger = ledger_with_accounts();
    fund(&mut ledger, 1, 10_000);
    fund(&mut ledger, 2, 333);
    transfer(&split_transfer_from_one(11), &mut ledger, 2_501).unwrap();
    burn(&BurnTokens { mint: 0, from: 2, authority: 12 }, &mut ledger, 100).unwrap();
    transfer(&split_transfer_from_one(11), &mut ledger, 99).unwrap();
    let total: u64 = (1..5).map(|i| balance(&ledger, i)).sum();
    assert_eq!(ledger.get_mint(0).unwrap().supply, total);
    assert_eq!(total, 10_233);
    assert_eq!(balance(&ledger, 1), 10_000 - 2_501 - 99);
    assert_eq!(balance(&ledger, 3), 50 + 1);
    assert_eq!(balance(&ledger, 4), 50 + 2);
}

#[test]
fn owner_reassigns_unset_close_authority() {
    let mut ledger = ledger_with_accounts();
    let ctx = SetAuthorityContext { account_or_mint: 1, current_authority: 11 };
    set_authority(&ctx, &mut ledger, AuthorityType::CloseAccount, Some(61)).unwrap();
    assert_eq!(ledger.get_account(1).unwrap().close_authority, Some(61));
    let by_61 = CloseAccountContext { account: 1, destination: 6, authority: 61 };
    close_account(&by_61, &mut ledger).unwrap();
}
