//! The ledger's bookkeeping invariant: every token account refers to a mint,
//! and each mint's supply is the sum of the balances of its accounts.
use vstd::prelude::*;
use crate::ledger::{
    account_at,
    approve_spec,
    burn_spec,
    close_spec,
    freeze_spec,
    init_account_spec,
    init_mint_spec,
    issue_spec,
    mint_at,
    mint_to_spec,
    revoke_spec,
    set_authority_spec,
    transfer_spec,
    Record,
};
use crate::types::{AuthorityType, Pubkey};

verus! {

/// What the record `r` holds of tokens of `mint`.
pub open spec fn share(r: Record, mint: int) -> int {
    match r {
        Record::Account(a) => if a.mint == mint {
            a.amount as int
        } else {
            0
        },
        _ => 0,
    }
}

/// Tokens of `mint` held by the first `n` records of `s`.
pub open spec fn held(s: Seq<Record>, mint: int, n: int) -> int
    decreases n,
{
    if n <= 0 || n > s.len() {
        0
    } else {
        held(s, mint, n - 1) + share(s[n - 1], mint)
    }
}

/// Tokens of `mint` held over the whole ledger.
pub open spec fn holdings(s: Seq<Record>, mint: int) -> int {
    held(s, mint, s.len() as int)
}

/// Every token account of `s` refers to a mint.
pub open spec fn refers_to_mints(s: Seq<Record>) -> bool {
    forall|i: int|
        #![trigger account_at(s, i)]
        account_at(s, i) is Some ==> mint_at(s, account_at(s, i)->Some_0.mint as int) is Some
}

/// A state `t` whose accounts were all accounts of the same mint in `s`, and
/// which keeps every mint of `s`, still has its accounts refer to mints.
proof fn lemma_refs_kept(s: Seq<Record>, t: Seq<Record>)
    requires
        refers_to_mints(s),
        forall|x: int| #[trigger] mint_at(s, x) is Some ==> mint_at(t, x) is Some,
        forall|i: int|
            #[trigger] account_at(t, i) is Some ==> account_at(s, i) is Some && account_at(t, i)->Some_0.mint
                == account_at(s, i)->Some_0.mint,
    ensures
        refers_to_mints(t),
{
    assert forall|i: int| #[trigger] account_at(t, i) is Some implies mint_at(
        t,
        account_at(t, i)->Some_0.mint as int,
    ) is Some by {
        assert(account_at(s, i) is Some);
        assert(mint_at(s, account_at(s, i)->Some_0.mint as int) is Some);
    }
}

/// The bookkeeping invariant of a ledger state.
pub open spec fn consistent(s: Seq<Record>) -> bool {
    &&& refers_to_mints(s)
    &&& forall|m: int|
        #![trigger mint_at(s, m)]
        mint_at(s, m) is Some ==> mint_at(s, m)->Some_0.supply == holdings(s, m)
}

proof fn lemma_held_update(s: Seq<Record>, k: int, r: Record, mint: int, n: int)
    requires
        0 <= k < s.len(),
        0 <= n <= s.len(),
    ensures
        held(s.update(k, r), mint, n) == held(s, mint, n) + (if k < n {
            share(r, mint) - share(s[k], mint)
        } else {
            0
        }),
    decreases n,
{
    if n > 0 {
        lemma_held_update(s, k, r, mint, n - 1);
    }
}

/// Replacing the record at `k` changes the holdings by the difference of
/// the two records' shares.
pub proof fn lemma_holdings_update(s: Seq<Record>, k: int, r: Record, mint: int)
    requires
        0 <= k < s.len(),
    ensures
        holdings(s.update(k, r), mint) == holdings(s, mint) + share(r, mint) - share(s[k], mint),
{
    lemma_held_update(s, k, r, mint, s.len() as int);
}

proof fn lemma_held_nonneg(s: Seq<Record>, mint: int, n: int)
    requires
        0 <= n <= s.len(),
    ensures
        held(s, mint, n) >= 0,
    decreases n,
{
    if n > 0 {
        lemma_held_nonneg(s, mint, n - 1);
    }
}

proof fn lemma_held_covers(s: Seq<Record>, mint: int, i: int, n: int)
    requires
        0 <= i < n <= s.len(),
    ensures
        held(s, mint, n) >= share(s[i], mint),
    decreases n,
{
    if n - 1 > i {
        lemma_held_covers(s, mint, i, n - 1);
    } else {
        lemma_held_nonneg(s, mint, n - 1);
    }
}

/// No account holds more of a mint than the whole ledger does.
pub proof fn lemma_holdings_cover(s: Seq<Record>, mint: int, i: int)
    requires
        0 <= i < s.len(),
    ensures
        holdings(s, mint) >= share(s[i], mint),
{
    lemma_held_covers(s, mint, i, s.len() as int);
}

/// Replacing a record by one with the same books (an account of the same
/// mint and balance, a mint of the same supply) keeps the invariant.
proof fn lemma_same_books(s: Seq<Record>, k: int, r: Record)
    requires
        consistent(s),
        0 <= k < s.len(),
        match (s[k], r) {
            (Record::Account(a), Record::Account(b)) => a.mint == b.mint && a.amount == b.amount,
            (Record::Mint(m), Record::Mint(n)) => m.supply == n.supply,
            _ => false,
        },
    ensures
        consistent(s.update(k, r)),
{
    let t = s.update(k, r);
    lemma_refs_kept(s, t);
    assert forall|m: int| #[trigger] mint_at(t, m) is Some implies mint_at(t, m)->Some_0.supply
        == holdings(t, m) by {
        lemma_holdings_update(s, k, r, m);
        assert(mint_at(s, m) is Some);
    }
}

proof fn lemma_held_unreferenced(s: Seq<Record>, mint: int, n: int)
    requires
        0 <= n <= s.len(),
        forall|i: int| 0 <= i < s.len() ==> #[trigger] share(s[i], mint) == 0,
    ensures
        held(s, mint, n) == 0,
    decreases n,
{
    if n > 0 {
        lemma_held_unreferenced(s, mint, n - 1);
    }
}

/// Creating a mint keeps the invariant: no account can refer to a free
/// address, so the new mint's supply of 0 is what its accounts hold.
pub proof fn lemma_init_mint_keeps_books(
    s: Seq<Record>,
    mint: int,
    decimals: u8,
    mint_authority: Pubkey,
    freeze_authority: Option<Pubkey>,
)
    requires
        consistent(s),
        init_mint_spec(s, mint, decimals, mint_authority, freeze_authority) is Ok,
    ensures
        consistent(init_mint_spec(s, mint, decimals, mint_authority, freeze_authority)->Ok_0),
{
    let t = init_mint_spec(s, mint, decimals, mint_authority, freeze_authority)->Ok_0;
    let r = t[mint];
    assert forall|i: int| 0 <= i < s.len() implies #[trigger] share(s[i], mint) == 0 by {
        if account_at(s, i) is Some {
            assert(mint_at(s, account_at(s, i)->Some_0.mint as int) is Some);
        }
    }
    lemma_held_unreferenced(s, mint, s.len() as int);
    lemma_refs_kept(s, t);
    assert forall|m: int| #[trigger] mint_at(t, m) is Some implies mint_at(t, m)->Some_0.supply
        == holdings(t, m) by {
        lemma_holdings_update(s, mint, r, m);
        if m != mint {
            assert(mint_at(s, m) is Some);
        }
    }
}

/// Creating an account keeps the invariant: it refers to an existing mint
/// and holds nothing yet.
pub proof fn lemma_init_account_keeps_books(s: Seq<Record>, account: int, mint: usize, owner: Pubkey)
    requires
        consistent(s),
        init_account_spec(s, account, mint, owner) is Ok,
    ensures
        consistent(init_account_spec(s, account, mint, owner)->Ok_0),
{
    let t = init_account_spec(s, account, mint, owner)->Ok_0;
    let r = t[account];
    assert forall|i: int| #[trigger] account_at(t, i) is Some implies mint_at(
        t,
        account_at(t, i)->Some_0.mint as int,
    ) is Some by {
        if i != account {
            assert(account_at(s, i) is Some);
            assert(mint_at(s, account_at(s, i)->Some_0.mint as int) is Some);
        }
    }
    assert forall|m: int| #[trigger] mint_at(t, m) is Some implies mint_at(t, m)->Some_0.supply
        == holdings(t, m) by {
        lemma_holdings_update(s, account, r, m);
        assert(mint_at(s, m) is Some);
    }
}

/// Issuing adds the same amount to the mint's supply and to one of its
/// accounts, so the invariant holds after it.
pub proof fn lemma_issue_keeps_books(s: Seq<Record>, mint: int, destination: int, amount: u64)
    requires
        consistent(s),
        issue_spec(s, mint, destination, amount) is Ok,
    ensures
        consistent(issue_spec(s, mint, destination, amount)->Ok_0),
{
    let t = issue_spec(s, mint, destination, amount)->Ok_0;
    let s1 = s.update(mint, t[mint]);
    assert(t == s1.update(destination, t[destination]));
    lemma_refs_kept(s, t);
    assert forall|m: int| #[trigger] mint_at(t, m) is Some implies mint_at(t, m)->Some_0.supply
        == holdings(t, m) by {
        lemma_holdings_update(s, mint, t[mint], m);
        lemma_holdings_update(s1, destination, t[destination], m);
        assert(mint_at(s, m) is Some);
    }
}

/// Minting is issuing on the mint authority's signature: it keeps the
/// invariant.
pub proof fn lemma_mint_to_keeps_books(
    s: Seq<Record>,
    mint: int,
    destination: int,
    authority: Pubkey,
    amount: u64,
)
    requires
        consistent(s),
        mint_to_spec(s, mint, destination, authority, amount) is Ok,
    ensures
        consistent(mint_to_spec(s, mint, destination, authority, amount)->Ok_0),
{
    lemma_issue_keeps_books(s, mint, destination, amount);
}

/// Burning takes the same amount from the mint's supply and from one of its
/// accounts, so the invariant holds after it.
pub proof fn lemma_burn_keeps_books(s: Seq<Record>, mint: int, source: int, authority: Pubkey, amount: u64)
    requires
        consistent(s),
        burn_spec(s, mint, source, authority, amount) is Ok,
    ensures
        consistent(burn_spec(s, mint, source, authority, amount)->Ok_0),
{
    let t = burn_spec(s, mint, source, authority, amount)->Ok_0;
    let s1 = s.update(mint, t[mint]);
    assert(t == s1.update(source, t[source]));
    lemma_refs_kept(s, t);
    assert forall|m: int| #[trigger] mint_at(t, m) is Some implies mint_at(t, m)->Some_0.supply
        == holdings(t, m) by {
        lemma_holdings_update(s, mint, t[mint], m);
        lemma_holdings_update(s1, source, t[source], m);
        assert(mint_at(s, m) is Some);
    }
}

/// A transfer moves tokens between two accounts of one mint: supplies and
/// holdings stay as they were.
pub proof fn lemma_transfer_keeps_books(
    s: Seq<Record>,
    source: int,
    destination: int,
    authority: Pubkey,
    amount: u64,
)
    requires
        consistent(s),
        transfer_spec(s, source, destination, authority, amount) is Ok,
    ensures
        consistent(transfer_spec(s, source, destination, authority, amount)->Ok_0),
{
    let t = transfer_spec(s, source, destination, authority, amount)->Ok_0;
    if source != destination {
        let s1 = s.update(source, t[source]);
        assert(t == s1.update(destination, t[destination]));
        lemma_refs_kept(s, t);
        assert forall|m: int| #[trigger] mint_at(t, m) is Some implies mint_at(t, m)->Some_0.supply
            == holdings(t, m) by {
            lemma_holdings_update(s, source, t[source], m);
            lemma_holdings_update(s1, destination, t[destination], m);
            assert(mint_at(s, m) is Some);
        }
    }
}

/// Granting an allowance changes no balance: the invariant holds after it.
pub proof fn lemma_approve_keeps_books(s: Seq<Record>, source: int, delegate: Pubkey, owner: Pubkey, amount: u64)
    requires
        consistent(s),
        approve_spec(s, source, delegate, owner, amount) is Ok,
    ensures
        consistent(approve_spec(s, source, delegate, owner, amount)->Ok_0),
{
    lemma_same_books(s, source, approve_spec(s, source, delegate, owner, amount)->Ok_0[source]);
}

/// Clearing a delegate changes no balance: the invariant holds after it.
pub proof fn lemma_revoke_keeps_books(s: Seq<Record>, source: int, owner: Pubkey)
    requires
        consistent(s),
        revoke_spec(s, source, owner) is Ok,
    ensures
        consistent(revoke_spec(s, source, owner)->Ok_0),
{
    lemma_same_books(s, source, revoke_spec(s, source, owner)->Ok_0[source]);
}

/// Freezing changes no balance: the invariant holds after it.
pub proof fn lemma_freeze_keeps_books(s: Seq<Record>, account: int, mint: int, authority: Pubkey)
    requires
        consistent(s),
        freeze_spec(s, account, mint, authority) is Ok,
    ensures
        consistent(freeze_spec(s, account, mint, authority)->Ok_0),
{
    lemma_same_books(s, account, freeze_spec(s, account, mint, authority)->Ok_0[account]);
}

/// Reassigning an authority changes no balance or supply: the invariant
/// holds after it.
pub proof fn lemma_set_authority_keeps_books(
    s: Seq<Record>,
    address: int,
    authority_type: AuthorityType,
    current: Pubkey,
    new_authority: Option<Pubkey>,
)
    requires
        consistent(s),
        set_authority_spec(s, address, authority_type, current, new_authority) is Ok,
    ensures
        consistent(set_authority_spec(s, address, authority_type, current, new_authority)->Ok_0),
{
    lemma_same_books(
        s,
        address,
        set_authority_spec(s, address, authority_type, current, new_authority)->Ok_0[address],
    );
}

/// Only an empty account can be closed, so removing it keeps the invariant.
pub proof fn lemma_close_keeps_books(s: Seq<Record>, account: int, destination: int, authority: Pubkey)
    requires
        consistent(s),
        close_spec(s, account, destination, authority) is Ok,
    ensures
        consistent(close_spec(s, account, destination, authority)->Ok_0),
{
    let t = close_spec(s, account, destination, authority)->Ok_0;
    lemma_refs_kept(s, t);
    assert forall|m: int| #[trigger] mint_at(t, m) is Some implies mint_at(t, m)->Some_0.supply
        == holdings(t, m) by {
        lemma_holdings_update(s, account, Record::Empty, m);
        assert(mint_at(s, m) is Some);
    }
}

} // verus!
