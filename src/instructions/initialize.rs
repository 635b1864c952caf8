use vstd::prelude::*;
use crate::contexts::Initialize;
use crate::ledger::{follows, init_account_spec, init_mint_spec, issue_spec, Ledger, Record};
use crate::supply::{
    consistent,
    lemma_init_account_keeps_books,
    lemma_init_mint_keeps_books,
    lemma_issue_keeps_books,
};
use crate::types::TokenError;

verus! {

/// Decimal places of the token created by `initialize`.
pub const DECIMALS: u8 = 9;

/// What `initialize` does to state `s`: create the mint with `ctx.authority`
/// as its mint authority, create the first token account of that authority,
/// and issue the whole initial supply into it under the mint's own signature.
pub open spec fn initialize_spec(s: Seq<Record>, ctx: Initialize, total_supply: u64) -> Result<
    Seq<Record>,
    TokenError,
> {
    match init_mint_spec(s, ctx.mint as int, DECIMALS, ctx.authority, None) {
        Err(e) => Err(e),
        Ok(s1) => match init_account_spec(
            s1,
            ctx.initial_token_account as int,
            ctx.mint,
            ctx.authority,
        ) {
            Err(e) => Err(e),
            Ok(s2) => issue_spec(s2, ctx.mint as int, ctx.initial_token_account as int, total_supply),
        },
    }
}

/// Creates the token and issues `total_supply`, all or nothing.
pub fn handler(ctx: &Initialize, ledger: &mut Ledger, total_supply: u64) -> (r: Result<(), TokenError>)
    ensures
        follows(old(ledger)@, final(ledger)@, r, initialize_spec(old(ledger)@, *ctx, total_supply)),
        consistent(old(ledger)@) ==> consistent(final(ledger)@),
{
    proof {
        if consistent(ledger@) && initialize_spec(ledger@, *ctx, total_supply) is Ok {
            lemma_initialize_keeps_books(ledger@, *ctx, total_supply);
        }
    }
    let mut staged = ledger.snapshot();
    let grant = match staged.create_mint(ctx.mint, DECIMALS, ctx.authority, None) {
        Ok(grant) => grant,
        Err(e) => return Err(e),
    };
    match staged.init_account(ctx.initial_token_account, ctx.mint, ctx.authority) {
        Ok(()) => {},
        Err(e) => return Err(e),
    }
    match staged.issue_initial(grant, ctx.initial_token_account, total_supply) {
        Ok(()) => {},
        Err(e) => return Err(e),
    }
    *ledger = staged;
    Ok(())
}

/// Creating the token keeps the ledger's bookkeeping invariant.
pub proof fn lemma_initialize_keeps_books(s: Seq<Record>, ctx: Initialize, total_supply: u64)
    requires
        consistent(s),
        initialize_spec(s, ctx, total_supply) is Ok,
    ensures
        consistent(initialize_spec(s, ctx, total_supply)->Ok_0),
{
    lemma_init_mint_keeps_books(s, ctx.mint as int, DECIMALS, ctx.authority, None);
    let s1 = init_mint_spec(s, ctx.mint as int, DECIMALS, ctx.authority, None)->Ok_0;
    lemma_init_account_keeps_books(s1, ctx.initial_token_account as int, ctx.mint, ctx.authority);
    let s2 = init_account_spec(s1, ctx.initial_token_account as int, ctx.mint, ctx.authority)->Ok_0;
    lemma_issue_keeps_books(s2, ctx.mint as int, ctx.initial_token_account as int, total_supply);
}

} // verus!
