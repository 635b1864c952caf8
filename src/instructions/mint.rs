use vstd::prelude::*;
use crate::contexts::{MintTo, MintTokens};
use crate::ledger::{follows, mint_to_spec, Ledger};
use crate::supply::consistent;
use crate::types::TokenError;

verus! {

/// Issues `amount` new tokens into `ctx.to` on the mint authority's signature.
pub fn handler(ctx: &MintTokens, ledger: &mut Ledger, amount: u64) -> (r: Result<(), TokenError>)
    ensures
        follows(
            old(ledger)@,
            final(ledger)@,
            r,
            mint_to_spec(old(ledger)@, ctx.mint as int, ctx.to as int, ctx.authority, amount),
        ),
        consistent(old(ledger)@) ==> consistent(final(ledger)@),
{
    let call = ctx.into_mint_to_context();
    ledger.mint_to(call.mint, call.to, call.authority, amount)
}

impl MintTokens {
    pub fn into_mint_to_context(&self) -> (r: MintTo)
        ensures
            r == (MintTo { mint: self.mint, to: self.to, authority: self.authority }),
    {
        MintTo { mint: self.mint, to: self.to, authority: self.authority }
    }
}

} // verus!
