use vstd::prelude::*;
use crate::contexts::{Transfer, TransferTokens};
use crate::fee::{lemma_split_conserves, split, split_spec, FeeSplit};
use crate::ledger::{account_at, after, follows, may_move, transfer_spec, Ledger, Record};
use crate::supply::{consistent, lemma_transfer_keeps_books};
use crate::types::TokenError;

verus! {

/// What a fee-splitting transfer of `amount` does to state `s`. The signer
/// must be the source's owner, or its delegate with an allowance of at least
/// `amount`, and the source must hold `amount`; then the net amount goes to
/// the recipient, the ecosystem fee and the reward fee to the treasuries.
pub open spec fn split_transfer_spec(s: Seq<Record>, ctx: TransferTokens, amount: u64) -> Result<
    Seq<Record>,
    TokenError,
> {
    match split_spec(amount) {
        Err(e) => Err(e),
        Ok(f) => match account_at(s, ctx.from as int) {
            None => Err(TokenError::InvalidAccount),
            Some(a) => if !may_move(a, ctx.authority, amount) {
                Err(TokenError::Unauthorized)
            } else if a.amount < amount {
                Err(TokenError::InsufficientBalance)
            } else {
                legs_spec(s, ctx, f)
            },
        },
    }
}

/// The three legs of a split transfer, in order; any leg that cannot commit
/// fails the whole transfer.
pub open spec fn legs_spec(s: Seq<Record>, ctx: TransferTokens, f: FeeSplit) -> Result<
    Seq<Record>,
    TokenError,
> {
    match transfer_spec(s, ctx.from as int, ctx.to as int, ctx.authority, f.net_amount) {
        Err(_) => Err(TokenError::TransferFailed),
        Ok(s1) => match transfer_spec(
            s1,
            ctx.from as int,
            ctx.ecosystem_treasury as int,
            ctx.authority,
            f.ecosystem_fee,
        ) {
            Err(_) => Err(TokenError::TransferFailed),
            Ok(s2) => match transfer_spec(
                s2,
                ctx.from as int,
                ctx.reward_treasury as int,
                ctx.authority,
                f.reward_fee,
            ) {
                Err(_) => Err(TokenError::TransferFailed),
                Ok(s3) => Ok(s3),
            },
        },
    }
}

/// Transfers `amount` with its fees split off, as one unit of work: the three
/// legs are staged on a copy of the ledger, which is committed only when all
/// of them succeed.
pub fn handler(ctx: &TransferTokens, ledger: &mut Ledger, amount: u64) -> (r: Result<(), TokenError>)
    ensures
        follows(old(ledger)@, final(ledger)@, r, split_transfer_spec(old(ledger)@, *ctx, amount)),
        consistent(old(ledger)@) ==> consistent(final(ledger)@),
{
    proof {
        if consistent(ledger@) && split_transfer_spec(ledger@, *ctx, amount) is Ok {
            lemma_split_transfer_keeps_books(ledger@, *ctx, amount);
        }
    }
    let f = match split(amount) {
        Ok(f) => f,
        Err(e) => return Err(e),
    };
    let source = match ledger.get_account(ctx.from) {
        Some(a) => a,
        None => return Err(TokenError::InvalidAccount),
    };
    if source.owner != ctx.authority && !(source.delegate == Some(ctx.authority) && amount
        <= source.delegated_amount) {
        return Err(TokenError::Unauthorized);
    }
    if source.amount < amount {
        return Err(TokenError::InsufficientBalance);
    }
    let mut staged = ledger.snapshot();
    let leg = ctx.into_transfer_to_context();
    if staged.transfer(leg.from, leg.to, leg.authority, f.net_amount).is_err() {
        return Err(TokenError::TransferFailed);
    }
    let leg = ctx.into_transfer_fee_context();
    if staged.transfer(leg.from, leg.to, leg.authority, f.ecosystem_fee).is_err() {
        return Err(TokenError::TransferFailed);
    }
    let leg = ctx.into_transfer_reward_context();
    if staged.transfer(leg.from, leg.to, leg.authority, f.reward_fee).is_err() {
        return Err(TokenError::TransferFailed);
    }
    *ledger = staged;
    Ok(())
}

impl TransferTokens {
    /// The leg that pays the recipient.
    pub fn into_transfer_to_context(&self) -> (r: Transfer)
        ensures
            r == (Transfer { from: self.from, to: self.to, authority: self.authority }),
    {
        Transfer { from: self.from, to: self.to, authority: self.authority }
    }

    /// The leg that pays the ecosystem treasury.
    pub fn into_transfer_fee_context(&self) -> (r: Transfer)
        ensures
            r == (Transfer { from: self.from, to: self.ecosystem_treasury, authority: self.authority }),
    {
        Transfer { from: self.from, to: self.ecosystem_treasury, authority: self.authority }
    }

    /// The leg that pays the reward treasury.
    pub fn into_transfer_reward_context(&self) -> (r: Transfer)
        ensures
            r == (Transfer { from: self.from, to: self.reward_treasury, authority: self.authority }),
    {
        Transfer { from: self.from, to: self.reward_treasury, authority: self.authority }
    }
}

/// When the signer and the source's balance are in order but the second leg
/// cannot commit (a frozen ecosystem treasury, say), the transfer fails as a
/// whole and every record, the first leg's source and recipient included,
/// stays as it was.
pub proof fn lemma_transfer_atomic(s: Seq<Record>, ctx: TransferTokens, amount: u64)
    requires
        split_spec(amount) is Ok,
        account_at(s, ctx.from as int) is Some,
        may_move(account_at(s, ctx.from as int)->Some_0, ctx.authority, amount),
        account_at(s, ctx.from as int)->Some_0.amount >= amount,
        transfer_spec(s, ctx.from as int, ctx.to as int, ctx.authority, split_spec(amount)->Ok_0.net_amount) is Ok,
        transfer_spec(
            transfer_spec(s, ctx.from as int, ctx.to as int, ctx.authority, split_spec(amount)->Ok_0.net_amount)->Ok_0,
            ctx.from as int,
            ctx.ecosystem_treasury as int,
            ctx.authority,
            split_spec(amount)->Ok_0.ecosystem_fee,
        ) is Err,
    ensures
        split_transfer_spec(s, ctx, amount) == Err::<Seq<Record>, TokenError>(TokenError::TransferFailed),
        after(s, split_transfer_spec(s, ctx, amount)) == s,
{
}

/// A split transfer between four distinct accounts that succeeds takes exactly
/// `amount` from the source and pays the net amount, the ecosystem fee and the
/// reward fee to the recipient and the two treasuries; no other record changes.
pub proof fn lemma_split_transfer_balances(s: Seq<Record>, ctx: TransferTokens, amount: u64)
    requires
        split_transfer_spec(s, ctx, amount) is Ok,
        ctx.from != ctx.to,
        ctx.from != ctx.ecosystem_treasury,
        ctx.from != ctx.reward_treasury,
        ctx.to != ctx.ecosystem_treasury,
        ctx.to != ctx.reward_treasury,
        ctx.ecosystem_treasury != ctx.reward_treasury,
    ensures
        ({
            let t = split_transfer_spec(s, ctx, amount)->Ok_0;
            let f = split_spec(amount)->Ok_0;
            &&& t.len() == s.len()
            &&& account_at(t, ctx.from as int)->Some_0.amount == account_at(s, ctx.from as int)->Some_0.amount
                - amount
            &&& account_at(t, ctx.to as int)->Some_0.amount == account_at(s, ctx.to as int)->Some_0.amount
                + f.net_amount
            &&& account_at(t, ctx.ecosystem_treasury as int)->Some_0.amount == account_at(
                s,
                ctx.ecosystem_treasury as int,
            )->Some_0.amount + f.ecosystem_fee
            &&& account_at(t, ctx.reward_treasury as int)->Some_0.amount == account_at(
                s,
                ctx.reward_treasury as int,
            )->Some_0.amount + f.reward_fee
            &&& forall|j: int|
                0 <= j < s.len() && j != ctx.from && j != ctx.to && j != ctx.ecosystem_treasury
                    && j != ctx.reward_treasury ==> #[trigger] t[j] == s[j]
        }),
{
    let f = split_spec(amount)->Ok_0;
    lemma_split_conserves(amount);
    let s1 = transfer_spec(s, ctx.from as int, ctx.to as int, ctx.authority, f.net_amount)->Ok_0;
    let s2 = transfer_spec(
        s1,
        ctx.from as int,
        ctx.ecosystem_treasury as int,
        ctx.authority,
        f.ecosystem_fee,
    )->Ok_0;
    assert(account_at(s1, ctx.ecosystem_treasury as int) == account_at(s, ctx.ecosystem_treasury as int));
    assert(account_at(s1, ctx.reward_treasury as int) == account_at(s, ctx.reward_treasury as int));
    assert(account_at(s2, ctx.reward_treasury as int) == account_at(s, ctx.reward_treasury as int));
    assert(account_at(s2, ctx.to as int) == account_at(s1, ctx.to as int));
}

/// A split transfer keeps the ledger's bookkeeping invariant.
pub proof fn lemma_split_transfer_keeps_books(s: Seq<Record>, ctx: TransferTokens, amount: u64)
    requires
        consistent(s),
        split_transfer_spec(s, ctx, amount) is Ok,
    ensures
        consistent(split_transfer_spec(s, ctx, amount)->Ok_0),
{
    let f = split_spec(amount)->Ok_0;
    lemma_transfer_keeps_books(s, ctx.from as int, ctx.to as int, ctx.authority, f.net_amount);
    let s1 = transfer_spec(s, ctx.from as int, ctx.to as int, ctx.authority, f.net_amount)->Ok_0;
    lemma_transfer_keeps_books(
        s1,
        ctx.from as int,
        ctx.ecosystem_treasury as int,
        ctx.authority,
        f.ecosystem_fee,
    );
    let s2 = transfer_spec(
        s1,
        ctx.from as int,
        ctx.ecosystem_treasury as int,
        ctx.authority,
        f.ecosystem_fee,
    )->Ok_0;
    lemma_transfer_keeps_books(s2, ctx.from as int, ctx.reward_treasury as int, ctx.authority, f.reward_fee);
}

} // verus!
