use vstd::prelude::*;
use crate::contexts::{Burn, BurnTokens};
use crate::ledger::{account_at, after, burn_spec, follows, mint_at, Ledger, Record};
use crate::supply::{consistent, lemma_holdings_cover};
use crate::types::TokenError;

verus! {

/// Destroys `amount` tokens held in `ctx.from` on its owner's signature.
pub fn handler(ctx: &BurnTokens, ledger: &mut Ledger, amount: u64) -> (r: Result<(), TokenError>)
    ensures
        follows(
            old(ledger)@,
            final(ledger)@,
            r,
            burn_spec(old(ledger)@, ctx.mint as int, ctx.from as int, ctx.authority, amount),
        ),
        consistent(old(ledger)@) ==> consistent(final(ledger)@),
{
    let call = ctx.into_burn_to_context();
    ledger.burn(call.mint, call.from, call.authority, amount)
}

impl BurnTokens {
    pub fn into_burn_to_context(&self) -> (r: Burn)
        ensures
            r == (Burn { mint: self.mint, from: self.from, authority: self.authority }),
    {
        Burn { mint: self.mint, from: self.from, authority: self.authority }
    }
}

/// A burn that succeeds lowers the account's balance and the mint's supply by
/// exactly the amount burned. On a ledger that keeps its books, a burn signed
/// by the owner of an unfrozen account of the mint succeeds when the amount
/// is within the balance, and otherwise fails with `InsufficientBalance` and
/// changes nothing.
pub proof fn lemma_burn_exact(s: Seq<Record>, mint: int, source: int, authority: u64, amount: u64)
    ensures
        burn_spec(s, mint, source, authority, amount) is Ok ==> {
            let t = after(s, burn_spec(s, mint, source, authority, amount));
            &&& account_at(t, source) is Some
            &&& account_at(t, source)->Some_0.amount == account_at(s, source)->Some_0.amount - amount
            &&& mint_at(t, mint) is Some
            &&& mint_at(t, mint)->Some_0.supply == mint_at(s, mint)->Some_0.supply - amount
        },
        ({
            &&& consistent(s)
            &&& account_at(s, source) is Some
            &&& account_at(s, source)->Some_0.mint == mint
            &&& !account_at(s, source)->Some_0.frozen
            &&& account_at(s, source)->Some_0.owner == authority
        }) ==> {
            &&& amount <= account_at(s, source)->Some_0.amount ==> burn_spec(
                s,
                mint,
                source,
                authority,
                amount,
            ) is Ok
            &&& amount > account_at(s, source)->Some_0.amount ==> burn_spec(
                s,
                mint,
                source,
                authority,
                amount,
            ) == Err::<Seq<Record>, TokenError>(TokenError::InsufficientBalance) && after(
                s,
                burn_spec(s, mint, source, authority, amount),
            ) == s
        },
{
    if consistent(s) && account_at(s, source) is Some && account_at(s, source)->Some_0.mint == mint {
        assert(mint_at(s, account_at(s, source)->Some_0.mint as int) is Some);
        lemma_holdings_cover(s, mint, source);
    }
}

} // verus!
