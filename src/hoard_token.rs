//! The instructions the token offers its callers, one per request kind.
use vstd::prelude::*;
use crate::contexts::{
    ApproveContext,
    BurnTokens,
    CloseAccountContext,
    Initialize,
    InitializeAccountContext,
    InitializeMintContext,
    MintTokens,
    RevokeContext,
    SetAuthorityContext,
    TransferTokens,
};
use crate::instructions::transfer::split_transfer_spec;
use crate::instructions::initialize::initialize_spec;
use crate::ledger::{
    approve_spec,
    burn_spec,
    close_spec,
    follows,
    init_account_spec,
    init_mint_spec,
    mint_to_spec,
    revoke_spec,
    set_authority_spec,
    Ledger,
};
use crate::supply::consistent;
use crate::types::{AuthorityType, Pubkey, TokenError};

verus! {

/// Creates the token with `DECIMALS` places and issues `total_supply` to
/// the initializer's first account. Fails with `InvalidAccount` when an
/// address lies past the ledger and `AlreadyInitialized` when it is taken.
pub fn initialize(ctx: &Initialize, ledger: &mut Ledger, total_supply: u64) -> (r: Result<(), TokenError>)
    ensures
        follows(old(ledger)@, final(ledger)@, r, initialize_spec(old(ledger)@, *ctx, total_supply)),
        consistent(old(ledger)@) ==> consistent(final(ledger)@),
{
    crate::instructions::initialize::handler(ctx, ledger, total_supply)
}

/// Issues `amount` new tokens on the mint authority's signature. Besides
/// `Unauthorized` and `SupplyOverflow` it fails with `InvalidAccount` when an
/// address does not hold a mint or a token account, `MintMismatch` when the
/// account is of another mint, and `AccountFrozen` when it is frozen.
pub fn mint(ctx: &MintTokens, ledger: &mut Ledger, amount: u64) -> (r: Result<(), TokenError>)
    ensures
        follows(
            old(ledger)@,
            final(ledger)@,
            r,
            mint_to_spec(old(ledger)@, ctx.mint as int, ctx.to as int, ctx.authority, amount),
        ),
        consistent(old(ledger)@) ==> consistent(final(ledger)@),
{
    crate::instructions::mint::handler(ctx, ledger, amount)
}

/// Burns `amount` tokens on the account owner's signature. Besides
/// `Unauthorized` and `InsufficientBalance` it fails with `InvalidAccount`,
/// `MintMismatch` or `AccountFrozen` as `mint` does.
pub fn burn(ctx: &BurnTokens, ledger: &mut Ledger, amount: u64) -> (r: Result<(), TokenError>)
    ensures
        follows(
            old(ledger)@,
            final(ledger)@,
            r,
            burn_spec(old(ledger)@, ctx.mint as int, ctx.from as int, ctx.authority, amount),
        ),
        consistent(old(ledger)@) ==> consistent(final(ledger)@),
{
    crate::instructions::burn::handler(ctx, ledger, amount)
}

/// Transfers `amount` less four percent to the recipient and splits the
/// fee between the two treasuries, all or nothing. Fails with
/// `AmountOverflow`, then `InvalidAccount` when the source is no token
/// account, `Unauthorized`, `InsufficientBalance`, and `TransferFailed` when
/// a leg cannot commit.
pub fn transfer(ctx: &TransferTokens, ledger: &mut Ledger, amount: u64) -> (r: Result<(), TokenError>)
    ensures
        follows(old(ledger)@, final(ledger)@, r, split_transfer_spec(old(ledger)@, *ctx, amount)),
        consistent(old(ledger)@) ==> consistent(final(ledger)@),
{
    crate::instructions::transfer::handler(ctx, ledger, amount)
}

/// Creates an empty token account. Fails with `InvalidAccount` when the
/// address lies past the ledger or the mint does not exist, and with
/// `AlreadyInitialized` when the address is taken.
pub fn initialize_account(ctx: &InitializeAccountContext, ledger: &mut Ledger) -> (r: Result<
    (),
    TokenError,
>)
    ensures
        follows(
            old(ledger)@,
            final(ledger)@,
            r,
            init_account_spec(old(ledger)@, ctx.account as int, ctx.mint, ctx.owner),
        ),
        consistent(old(ledger)@) ==> consistent(final(ledger)@),
{
    crate::instructions::account::initialize_account(ctx, ledger)
}

/// Creates a mint with `decimals` places. Fails with `InvalidAccount` or
/// `AlreadyInitialized` as `initialize_account` does.
pub fn initialize_mint(ctx: &InitializeMintContext, ledger: &mut Ledger, decimals: u8) -> (r: Result<
    (),
    TokenError,
>)
    ensures
        follows(
            old(ledger)@,
            final(ledger)@,
            r,
            init_mint_spec(old(ledger)@, ctx.mint as int, decimals, ctx.mint_authority, None),
        ),
        consistent(old(ledger)@) ==> consistent(final(ledger)@),
{
    crate::instructions::account::initialize_mint(ctx, ledger, decimals)
}

/// Grants a delegate an allowance. Besides `Unauthorized` it fails with
/// `InvalidAccount` when the source is no token account and `AccountFrozen`
/// when it is frozen.
pub fn approve(ctx: &ApproveContext, ledger: &mut Ledger, amount: u64) -> (r: Result<(), TokenError>)
    ensures
        follows(
            old(ledger)@,
            final(ledger)@,
            r,
            approve_spec(old(ledger)@, ctx.source as int, ctx.delegate, ctx.owner, amount),
        ),
        consistent(old(ledger)@) ==> consistent(final(ledger)@),
{
    crate::instructions::account::approve(ctx, ledger, amount)
}

/// Clears the delegate. Fails as `approve` does.
pub fn revoke(ctx: &RevokeContext, ledger: &mut Ledger) -> (r: Result<(), TokenError>)
    ensures
        follows(old(ledger)@, final(ledger)@, r, revoke_spec(old(ledger)@, ctx.source as int, ctx.owner)),
        consistent(old(ledger)@) ==> consistent(final(ledger)@),
{
    crate::instructions::account::revoke(ctx, ledger)
}

/// Reassigns one authority; `None` revokes it for good. Besides the
/// authority errors it fails with `AccountFrozen` on a frozen token account.
pub fn set_authority(
    ctx: &SetAuthorityContext,
    ledger: &mut Ledger,
    authority_type: AuthorityType,
    new_authority: Option<Pubkey>,
) -> (r: Result<(), TokenError>)
    ensures
        follows(
            old(ledger)@,
            final(ledger)@,
            r,
            set_authority_spec(
                old(ledger)@,
                ctx.account_or_mint as int,
                authority_type,
                ctx.current_authority,
                new_authority,
            ),
        ),
        consistent(old(ledger)@) ==> consistent(final(ledger)@),
{
    crate::instructions::account::set_authority(ctx, ledger, authority_type, new_authority)
}

/// Closes an empty token account. Besides `Unauthorized` and
/// `AccountNotEmpty` it fails with `InvalidAccount` when the address holds
/// no token account or equals `destination`.
pub fn close_account(ctx: &CloseAccountContext, ledger: &mut Ledger) -> (r: Result<(), TokenError>)
    ensures
        follows(
            old(ledger)@,
            final(ledger)@,
            r,
            close_spec(old(ledger)@, ctx.account as int, ctx.destination as int, ctx.authority),
        ),
        consistent(old(ledger)@) ==> consistent(final(ledger)@),
{
    crate::instructions::account::close_account(ctx, ledger)
}

} // verus!
