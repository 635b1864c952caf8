use vstd::prelude::*;
use crate::contexts::{
    Approve,
    ApproveContext,
    CloseAccountContext,
    InitializeAccountContext,
    InitializeMintContext,
    Revoke,
    RevokeContext,
    SetAuthority,
    SetAuthorityContext,
};
use crate::ledger::{
    after,
    approve_spec,
    close_spec,
    follows,
    init_account_spec,
    init_mint_spec,
    revoke_spec,
    set_authority_spec,
    Ledger,
    Record,
};
use crate::supply::consistent;
use crate::types::{AuthorityType, Pubkey, TokenError};

verus! {

/// Creates a token account of `ctx.mint` owned by `ctx.owner`.
pub fn initialize_account(ctx: &InitializeAccountContext, ledger: &mut Ledger) -> (r: Result<
    (),
    TokenError,
>)
    ensures
        follows(
            old(ledger)@,
            final(ledger)@,
            r,
            init_account_spec(old(ledger)@, ctx.account as int, ctx.mint, ctx.owner),
        ),
        consistent(old(ledger)@) ==> consistent(final(ledger)@),
{
    ledger.init_account(ctx.account, ctx.mint, ctx.owner)
}

/// Creates a mint with `decimals` places and no freeze authority.
pub fn initialize_mint(ctx: &InitializeMintContext, ledger: &mut Ledger, decimals: u8) -> (r: Result<
    (),
    TokenError,
>)
    ensures
        follows(
            old(ledger)@,
            final(ledger)@,
            r,
            init_mint_spec(old(ledger)@, ctx.mint as int, decimals, ctx.mint_authority, None),
        ),
        consistent(old(ledger)@) ==> consistent(final(ledger)@),
{
    ledger.init_mint(ctx.mint, decimals, ctx.mint_authority, None)
}

/// Grants `ctx.delegate` an allowance of `amount` on `ctx.source`.
pub fn approve(ctx: &ApproveContext, ledger: &mut Ledger, amount: u64) -> (r: Result<(), TokenError>)
    ensures
        follows(
            old(ledger)@,
            final(ledger)@,
            r,
            approve_spec(old(ledger)@, ctx.source as int, ctx.delegate, ctx.owner, amount),
        ),
        consistent(old(ledger)@) ==> consistent(final(ledger)@),
{
    let call = ctx.into_approve_context();
    ledger.approve(call.source, call.delegate, call.authority, amount)
}

/// Clears the delegate of `ctx.source`.
pub fn revoke(ctx: &RevokeContext, ledger: &mut Ledger) -> (r: Result<(), TokenError>)
    ensures
        follows(old(ledger)@, final(ledger)@, r, revoke_spec(old(ledger)@, ctx.source as int, ctx.owner)),
        consistent(old(ledger)@) ==> consistent(final(ledger)@),
{
    let call = ctx.into_revoke_context();
    ledger.revoke(call.source, call.authority)
}

/// Reassigns one authority of the mint or token account `ctx.account_or_mint`.
/// With `new_authority == None` the authority is revoked for good: no later
/// call can set it again.
pub fn set_authority(
    ctx: &SetAuthorityContext,
    ledger: &mut Ledger,
    authority_type: AuthorityType,
    new_authority: Option<Pubkey>,
) -> (r: Result<(), TokenError>)
    ensures
        follows(
            old(ledger)@,
            final(ledger)@,
            r,
            set_authority_spec(
                old(ledger)@,
                ctx.account_or_mint as int,
                authority_type,
                ctx.current_authority,
                new_authority,
            ),
        ),
        consistent(old(ledger)@) ==> consistent(final(ledger)@),
{
    let call = ctx.into_set_authority_context();
    ledger.set_authority(call.account_or_mint, authority_type, call.current_authority, new_authority)
}

/// Closes the empty token account `ctx.account`.
pub fn close_account(ctx: &CloseAccountContext, ledger: &mut Ledger) -> (r: Result<(), TokenError>)
    ensures
        follows(
            old(ledger)@,
            final(ledger)@,
            r,
            close_spec(old(ledger)@, ctx.account as int, ctx.destination as int, ctx.authority),
        ),
        consistent(old(ledger)@) ==> consistent(final(ledger)@),
{
    ledger.close_account(ctx.account, ctx.destination, ctx.authority)
}

impl ApproveContext {
    pub fn into_approve_context(&self) -> (r: Approve)
        ensures
            r == (Approve { source: self.source, delegate: self.delegate, authority: self.owner }),
    {
        Approve { source: self.source, delegate: self.delegate, authority: self.owner }
    }
}

impl RevokeContext {
    pub fn into_revoke_context(&self) -> (r: Revoke)
        ensures
            r == (Revoke { source: self.source, authority: self.owner }),
    {
        Revoke { source: self.source, authority: self.owner }
    }
}

impl SetAuthorityContext {
    pub fn into_set_authority_context(&self) -> (r: SetAuthority)
        ensures
            r == (SetAuthority {
                account_or_mint: self.account_or_mint,
                current_authority: self.current_authority,
            }),
    {
        SetAuthority {
            account_or_mint: self.account_or_mint,
            current_authority: self.current_authority,
        }
    }
}

/// Revocation is final: once an authority slot has been set to `None`, any
/// further `set_authority` on the same slot fails with
/// `AuthorityAlreadyRevoked` and changes nothing, whoever signs and whatever
/// new authority it names. (An account's owner cannot be revoked at all.)
pub proof fn lemma_revocation_is_final(
    s: Seq<Record>,
    address: int,
    authority_type: AuthorityType,
    current: Pubkey,
    next_signer: Pubkey,
    next_authority: Option<Pubkey>,
)
    requires
        set_authority_spec(s, address, authority_type, current, None) is Ok,
    ensures
        ({
            let t = after(s, set_authority_spec(s, address, authority_type, current, None));
            set_authority_spec(t, address, authority_type, next_signer, next_authority)
                == Err::<Seq<Record>, TokenError>(TokenError::AuthorityAlreadyRevoked)
        }),
{
}

} // verus!
