use vstd::prelude::*;
use crate::supply::{
    consistent,
    lemma_approve_keeps_books,
    lemma_burn_keeps_books,
    lemma_close_keeps_books,
    lemma_freeze_keeps_books,
    lemma_init_account_keeps_books,
    lemma_init_mint_keeps_books,
    lemma_issue_keeps_books,
    lemma_revoke_keeps_books,
    lemma_set_authority_keeps_books,
    lemma_transfer_keeps_books,
};
use crate::types::{AuthorityType, Pubkey, TokenError};

verus! {

/// The supply record of one token type.
#[derive(Clone, Copy, Debug, PartialEq, Eq, Structural)]
pub struct Mint {
    pub decimals: u8,
    pub mint_authority: Option<Pubkey>,
    pub freeze_authority: Option<Pubkey>,
    pub supply: u64,
}

/// The balance record of one owner for one mint.
#[derive(Clone, Copy, Debug, PartialEq, Eq, Structural)]
pub struct TokenAccount {
    pub owner: Pubkey,
    /// Address of the mint this account holds tokens of.
    pub mint: usize,
    pub amount: u64,
    pub delegate: Option<Pubkey>,
    /// How much the delegate may still move.
    pub delegated_amount: u64,
    /// Who may close the account; when unset, its owner.
    pub close_authority: Option<Pubkey>,
    /// The close authority slot was revoked and can never be set again.
    pub close_revoked: bool,
    pub frozen: bool,
}

/// What an address of the ledger holds.
#[derive(Clone, Copy, Debug, PartialEq, Eq, Structural)]
pub enum Record {
    Empty,
    Mint(Mint),
    Account(TokenAccount),
}

/// An address resolved to the kind of record stored there.
#[derive(Clone, Copy, Debug, PartialEq, Eq, Structural)]
pub enum AuthorityTarget {
    Mint(usize),
    TokenAccount(usize),
}

/// The ledger: one record per address. Each operation either applies whole
/// or leaves every record as it was.
pub struct Ledger {
    pub records: Vec<Record>,
}

/// The mint's own signature over its first issuance: `Ledger::create_mint`
/// makes one as it creates the mint, and `Ledger::issue_initial` uses it up.
/// It cannot be copied or made elsewhere, so it signs exactly one issuance;
/// after that the mint's declared authority is needed.
pub struct IssueGrant {
    mint: usize,
}

impl IssueGrant {
    /// The mint the grant is for.
    pub closed spec fn mint(&self) -> usize {
        self.mint
    }
}

impl View for Ledger {
    type V = Seq<Record>;

    open spec fn view(&self) -> Seq<Record> {
        self.records@
    }
}

/// The token account at address `i`, if there is one.
pub open spec fn account_at(s: Seq<Record>, i: int) -> Option<TokenAccount> {
    if 0 <= i < s.len() {
        match s[i] {
            Record::Account(a) => Some(a),
            _ => None,
        }
    } else {
        None
    }
}

/// The mint at address `i`, if there is one.
pub open spec fn mint_at(s: Seq<Record>, i: int) -> Option<Mint> {
    if 0 <= i < s.len() {
        match s[i] {
            Record::Mint(m) => Some(m),
            _ => None,
        }
    } else {
        None
    }
}

/// Address `i` exists and holds no record.
pub open spec fn is_free(s: Seq<Record>, i: int) -> bool {
    0 <= i < s.len() && s[i] == Record::Empty
}

/// `r` and the final state `t` are what `outcome` prescribes from state `s`:
/// the new state on success, the untouched state and the error on failure.
pub open spec fn follows(
    s: Seq<Record>,
    t: Seq<Record>,
    r: Result<(), TokenError>,
    outcome: Result<Seq<Record>, TokenError>,
) -> bool {
    match outcome {
        Ok(n) => r == Ok::<(), TokenError>(()) && t == n,
        Err(e) => r == Err::<(), TokenError>(e) && t == s,
    }
}

/// The state after an operation with the given outcome.
pub open spec fn after(s: Seq<Record>, outcome: Result<Seq<Record>, TokenError>) -> Seq<Record> {
    match outcome {
        Ok(n) => n,
        Err(_) => s,
    }
}

/// Creating a mint at a free address: no supply yet, `mint_authority` may issue.
pub open spec fn init_mint_spec(
    s: Seq<Record>,
    mint: int,
    decimals: u8,
    mint_authority: Pubkey,
    freeze_authority: Option<Pubkey>,
) -> Result<Seq<Record>, TokenError> {
    if !(0 <= mint < s.len()) {
        Err(TokenError::InvalidAccount)
    } else if s[mint] != Record::Empty {
        Err(TokenError::AlreadyInitialized)
    } else {
        Ok(
            s.update(
                mint,
                Record::Mint(
                    Mint {
                        decimals,
                        mint_authority: Some(mint_authority),
                        freeze_authority,
                        supply: 0,
                    },
                ),
            ),
        )
    }
}

/// A fresh account: empty, with no delegate, and with its close authority
/// slot following its owner.
pub open spec fn fresh_account(mint: usize, owner: Pubkey) -> TokenAccount {
    TokenAccount {
        owner,
        mint,
        amount: 0,
        delegate: None,
        delegated_amount: 0,
        close_authority: None,
        close_revoked: false,
        frozen: false,
    }
}

/// Who may close `a`: its close authority if one is set, else its owner.
pub open spec fn closer(a: TokenAccount) -> Pubkey {
    match a.close_authority {
        Some(c) => c,
        None => a.owner,
    }
}

/// The value of the close authority slot of `a` as `set_authority` sees it:
/// `None` once revoked, else who may close the account.
pub open spec fn close_slot(a: TokenAccount) -> Option<Pubkey> {
    if a.close_revoked {
        None
    } else {
        Some(closer(a))
    }
}

/// Creating an empty token account of an existing mint at a free address.
pub open spec fn init_account_spec(s: Seq<Record>, account: int, mint: usize, owner: Pubkey) -> Result<
    Seq<Record>,
    TokenError,
> {
    if !(0 <= account < s.len()) {
        Err(TokenError::InvalidAccount)
    } else if s[account] != Record::Empty {
        Err(TokenError::AlreadyInitialized)
    } else if mint_at(s, mint as int) is None {
        Err(TokenError::InvalidAccount)
    } else {
        Ok(s.update(account, Record::Account(fresh_account(mint, owner))))
    }
}

/// Credits `amount` new tokens of `mint` to `destination`, on whatever
/// authority the caller has already established.
pub open spec fn issue_spec(s: Seq<Record>, mint: int, destination: int, amount: u64) -> Result<
    Seq<Record>,
    TokenError,
> {
    match (mint_at(s, mint), account_at(s, destination)) {
        (Some(m), Some(d)) => {
            if d.mint != mint {
                Err(TokenError::MintMismatch)
            } else if d.frozen {
                Err(TokenError::AccountFrozen)
            } else if m.supply + amount > u64::MAX || d.amount + amount > u64::MAX {
                Err(TokenError::SupplyOverflow)
            } else {
                Ok(
                    s.update(mint, Record::Mint(Mint { supply: (m.supply + amount) as u64, ..m })).update(
                        destination,
                        Record::Account(TokenAccount { amount: (d.amount + amount) as u64, ..d }),
                    ),
                )
            }
        },
        _ => Err(TokenError::InvalidAccount),
    }
}

/// Issuing on the signature of the mint's authority.
pub open spec fn mint_to_spec(
    s: Seq<Record>,
    mint: int,
    destination: int,
    authority: Pubkey,
    amount: u64,
) -> Result<Seq<Record>, TokenError> {
    match (mint_at(s, mint), account_at(s, destination)) {
        (Some(m), Some(d)) => {
            if d.mint != mint {
                Err(TokenError::MintMismatch)
            } else if d.frozen {
                Err(TokenError::AccountFrozen)
            } else if m.mint_authority != Some(authority) {
                Err(TokenError::Unauthorized)
            } else {
                issue_spec(s, mint, destination, amount)
            }
        },
        _ => Err(TokenError::InvalidAccount),
    }
}

/// Burning from an account on its owner's signature: balance and supply
/// both fall by `amount`.
pub open spec fn burn_spec(
    s: Seq<Record>,
    mint: int,
    source: int,
    authority: Pubkey,
    amount: u64,
) -> Result<Seq<Record>, TokenError> {
    match (mint_at(s, mint), account_at(s, source)) {
        (Some(m), Some(a)) => {
            if a.mint != mint {
                Err(TokenError::MintMismatch)
            } else if a.frozen {
                Err(TokenError::AccountFrozen)
            } else if a.owner != authority {
                Err(TokenError::Unauthorized)
            } else if a.amount < amount || m.supply < amount {
                Err(TokenError::InsufficientBalance)
            } else {
                Ok(
                    s.update(mint, Record::Mint(Mint { supply: (m.supply - amount) as u64, ..m })).update(
                        source,
                        Record::Account(TokenAccount { amount: (a.amount - amount) as u64, ..a }),
                    ),
                )
            }
        },
        _ => Err(TokenError::InvalidAccount),
    }
}

/// `authority` may move `amount` out of `a`: as its owner, or as its delegate
/// within the allowance. This model checks the owner first, where the
/// on-chain token program checks the delegate first; the two differ only
/// when the owner is also its own delegate.
pub open spec fn may_move(a: TokenAccount, authority: Pubkey, amount: u64) -> bool {
    a.owner == authority || (a.delegate == Some(authority) && amount <= a.delegated_amount)
}

/// The source account after `authority` moved `amount` out of it. A
/// delegate whose allowance is spent stays recorded with an allowance of 0
/// (the on-chain token program clears it), so that the zero-amount fee legs
/// of a small split transfer made by a delegate remain legal.
pub open spec fn debited(a: TokenAccount, authority: Pubkey, amount: u64) -> TokenAccount {
    TokenAccount {
        amount: (a.amount - amount) as u64,
        delegated_amount: if a.owner == authority {
            a.delegated_amount
        } else {
            (a.delegated_amount - amount) as u64
        },
        ..a
    }
}

/// One ledger transfer between two accounts of one mint. A transfer from an
/// account to itself passes the checks and changes nothing.
pub open spec fn transfer_spec(
    s: Seq<Record>,
    source: int,
    destination: int,
    authority: Pubkey,
    amount: u64,
) -> Result<Seq<Record>, TokenError> {
    match (account_at(s, source), account_at(s, destination)) {
        (Some(a), Some(d)) => {
            if a.mint != d.mint {
                Err(TokenError::MintMismatch)
            } else if a.frozen || d.frozen {
                Err(TokenError::AccountFrozen)
            } else if !may_move(a, authority, amount) {
                Err(TokenError::Unauthorized)
            } else if a.amount < amount {
                Err(TokenError::InsufficientBalance)
            } else if source == destination {
                Ok(s)
            } else if d.amount + amount > u64::MAX {
                Err(TokenError::AmountOverflow)
            } else {
                Ok(
                    s.update(source, Record::Account(debited(a, authority, amount))).update(
                        destination,
                        Record::Account(TokenAccount { amount: (d.amount + amount) as u64, ..d }),
                    ),
                )
            }
        },
        _ => Err(TokenError::InvalidAccount),
    }
}

/// Granting `delegate` an allowance of `amount` on the owner's signature;
/// it replaces any earlier delegate and allowance. A frozen account is
/// refused.
pub open spec fn approve_spec(
    s: Seq<Record>,
    source: int,
    delegate: Pubkey,
    owner: Pubkey,
    amount: u64,
) -> Result<Seq<Record>, TokenError> {
    match account_at(s, source) {
        Some(a) => {
            if a.frozen {
                Err(TokenError::AccountFrozen)
            } else if a.owner != owner {
                Err(TokenError::Unauthorized)
            } else {
                Ok(
                    s.update(
                        source,
                        Record::Account(
                            TokenAccount { delegate: Some(delegate), delegated_amount: amount, ..a },
                        ),
                    ),
                )
            }
        },
        None => Err(TokenError::InvalidAccount),
    }
}

/// Clearing the delegate and allowance on the owner's signature, whatever
/// the allowance left. A frozen account is refused.
pub open spec fn revoke_spec(s: Seq<Record>, source: int, owner: Pubkey) -> Result<
    Seq<Record>,
    TokenError,
> {
    match account_at(s, source) {
        Some(a) => {
            if a.frozen {
                Err(TokenError::AccountFrozen)
            } else if a.owner != owner {
                Err(TokenError::Unauthorized)
            } else {
                Ok(
                    s.update(
                        source,
                        Record::Account(TokenAccount { delegate: None, delegated_amount: 0, ..a }),
                    ),
                )
            }
        },
        None => Err(TokenError::InvalidAccount),
    }
}

/// Freezing an account on the signature of its mint's freeze authority.
pub open spec fn freeze_spec(s: Seq<Record>, account: int, mint: int, authority: Pubkey) -> Result<
    Seq<Record>,
    TokenError,
> {
    match (mint_at(s, mint), account_at(s, account)) {
        (Some(m), Some(a)) => {
            if a.mint != mint {
                Err(TokenError::MintMismatch)
            } else if m.freeze_authority != Some(authority) {
                Err(TokenError::Unauthorized)
            } else {
                Ok(s.update(account, Record::Account(TokenAccount { frozen: true, ..a })))
            }
        },
        _ => Err(TokenError::InvalidAccount),
    }
}

/// Closing an empty account on the signature of `closer`; the
/// address becomes free. The reclaimed storage goes to `destination`,
/// which must be another address.
pub open spec fn close_spec(s: Seq<Record>, account: int, destination: int, authority: Pubkey) -> Result<
    Seq<Record>,
    TokenError,
> {
    match account_at(s, account) {
        Some(a) => {
            if account == destination {
                Err(TokenError::InvalidAccount)
            } else if closer(a) != authority {
                Err(TokenError::Unauthorized)
            } else if a.amount != 0 {
                Err(TokenError::AccountNotEmpty)
            } else {
                Ok(s.update(account, Record::Empty))
            }
        },
        None => Err(TokenError::InvalidAccount),
    }
}

/// What the record at `address` is, as an authority target.
pub open spec fn resolve_spec(s: Seq<Record>, address: int) -> Result<AuthorityTarget, TokenError> {
    if !(0 <= address < s.len()) {
        Err(TokenError::InvalidAccountType)
    } else {
        match s[address] {
            Record::Mint(_) => Ok(AuthorityTarget::Mint(address as usize)),
            Record::Account(_) => Ok(AuthorityTarget::TokenAccount(address as usize)),
            Record::Empty => Err(TokenError::InvalidAccountType),
        }
    }
}

/// Reassigns an optional authority slot whose value is `slot`: a revoked slot
/// stays revoked, and only its holder may hand it on.
pub open spec fn reassign_slot(slot: Option<Pubkey>, current: Pubkey) -> Result<(), TokenError> {
    match slot {
        None => Err(TokenError::AuthorityAlreadyRevoked),
        Some(holder) => if holder != current {
            Err(TokenError::Unauthorized)
        } else {
            Ok(())
        },
    }
}

/// Reassigning one authority slot. Mints have the `MintTokens` and
/// `FreezeAccount` slots, token accounts `AccountOwner` and `CloseAccount`.
/// A revoked slot (`None`) can never be set again: a mint's authorities, and
/// an account's close authority once revoked. An account's owner can be
/// handed on but not revoked, and a new owner starts with no delegate. A
/// frozen account's authorities cannot be changed. Revoking the close
/// authority leaves closing to the owner alone, for good.
pub open spec fn set_authority_spec(
    s: Seq<Record>,
    address: int,
    authority_type: AuthorityType,
    current: Pubkey,
    new_authority: Option<Pubkey>,
) -> Result<Seq<Record>, TokenError> {
    match resolve_spec(s, address) {
        Err(e) => Err(e),
        Ok(AuthorityTarget::Mint(_)) => {
            let m = mint_at(s, address)->Some_0;
            match authority_type {
                AuthorityType::MintTokens => match reassign_slot(m.mint_authority, current) {
                    Err(e) => Err(e),
                    Ok(_) => Ok(
                        s.update(address, Record::Mint(Mint { mint_authority: new_authority, ..m })),
                    ),
                },
                AuthorityType::FreezeAccount => match reassign_slot(m.freeze_authority, current) {
                    Err(e) => Err(e),
                    Ok(_) => Ok(
                        s.update(address, Record::Mint(Mint { freeze_authority: new_authority, ..m })),
                    ),
                },
                _ => Err(TokenError::InvalidAuthorityType),
            }
        },
        Ok(AuthorityTarget::TokenAccount(_)) => {
            let a = account_at(s, address)->Some_0;
            if a.frozen {
                Err(TokenError::AccountFrozen)
            } else {
                match authority_type {
                AuthorityType::AccountOwner => match reassign_slot(Some(a.owner), current) {
                    Err(e) => Err(e),
                    Ok(_) => match new_authority {
                        None => Err(TokenError::InvalidAuthorityType),
                        Some(o) => Ok(
                            s.update(
                                address,
                                Record::Account(
                                    TokenAccount { owner: o, delegate: None, delegated_amount: 0, ..a },
                                ),
                            ),
                        ),
                    },
                },
                AuthorityType::CloseAccount => match reassign_slot(close_slot(a), current) {
                    Err(e) => Err(e),
                    Ok(_) => Ok(
                        s.update(
                            address,
                            Record::Account(
                                TokenAccount {
                                    close_authority: new_authority,
                                    close_revoked: new_authority is None,
                                    ..a
                                },
                            ),
                        ),
                    ),
                },
                _ => Err(TokenError::InvalidAuthorityType),
                }
            }
        },
    }
}

impl Ledger {
    /// A ledger of `size` free addresses.
    pub fn new(size: usize) -> (r: Ledger)
        ensures
            r@ == Seq::new(size as nat, |i: int| Record::Empty),
            consistent(r@),
    {
        let mut records: Vec<Record> = Vec::new();
        let mut i: usize = 0;
        while i < size
            invariant
                i <= size,
                records@ == Seq::new(i as nat, |j: int| Record::Empty),
            decreases size - i,
        {
            records.push(Record::Empty);
            i = i + 1;
            assert(records@ =~= Seq::new(i as nat, |j: int| Record::Empty));
        }
        Ledger { records }
    }

    /// The record at `address`, or `Empty` past the end.
    pub fn record(&self, address: usize) -> (r: Record)
        ensures
            r == (if address < self@.len() { self@[address as int] } else { Record::Empty }),
    {
        if address < self.records.len() {
            self.records[address]
        } else {
            Record::Empty
        }
    }

    /// The token account at `address`, if there is one.
    pub fn get_account(&self, address: usize) -> (r: Option<TokenAccount>)
        ensures
            r == account_at(self@, address as int),
    {
        match self.record(address) {
            Record::Account(a) => Some(a),
            _ => None,
        }
    }

    /// The mint at `address`, if there is one.
    pub fn get_mint(&self, address: usize) -> (r: Option<Mint>)
        ensures
            r == mint_at(self@, address as int),
    {
        match self.record(address) {
            Record::Mint(m) => Some(m),
            _ => None,
        }
    }

    /// A copy of every record, to commit back later.
    pub fn snapshot(&self) -> (r: Ledger)
        ensures
            r@ == self@,
    {
        let mut records: Vec<Record> = Vec::new();
        let mut i: usize = 0;
        while i < self.records.len()
            invariant
                i <= self.records.len(),
                records@ == self.records@.subrange(0, i as int),
            decreases self.records.len() - i,
        {
            records.push(self.records[i]);
            i = i + 1;
            assert(records@ =~= self.records@.subrange(0, i as int));
        }
        assert(records@ =~= self.records@);
        Ledger { records }
    }

    /// Creates a mint at the free address `mint`.
    pub fn init_mint(
        &mut self,
        mint: usize,
        decimals: u8,
        mint_authority: Pubkey,
        freeze_authority: Option<Pubkey>,
    ) -> (r: Result<(), TokenError>)
        ensures
            follows(
                old(self)@,
                final(self)@,
                r,
                init_mint_spec(old(self)@, mint as int, decimals, mint_authority, freeze_authority),
            ),
            consistent(old(self)@) ==> consistent(final(self)@),
    {
        proof {
            if consistent(self@) && init_mint_spec(self@, mint as int, decimals, mint_authority, freeze_authority) is Ok {
                lemma_init_mint_keeps_books(self@, mint as int, decimals, mint_authority, freeze_authority);
            }
        }
        if mint >= self.records.len() {
            return Err(TokenError::InvalidAccount);
        }
        if self.records[mint] != Record::Empty {
            return Err(TokenError::AlreadyInitialized);
        }
        let m = Mint {
            decimals,
            mint_authority: Some(mint_authority),
            freeze_authority,
            supply: 0,
        };
        self.records.set(mint, Record::Mint(m));
        Ok(())
    }

    /// Creates an empty token account of `mint` at the free address `account`.
    pub fn init_account(&mut self, account: usize, mint: usize, owner: Pubkey) -> (r: Result<
        (),
        TokenError,
    >)
        ensures
            follows(old(self)@, final(self)@, r, init_account_spec(old(self)@, account as int, mint, owner)),
            consistent(old(self)@) ==> consistent(final(self)@),
    {
        proof {
            if consistent(self@) && init_account_spec(self@, account as int, mint, owner) is Ok {
                lemma_init_account_keeps_books(self@, account as int, mint, owner);
            }
        }
        if account >= self.records.len() {
            return Err(TokenError::InvalidAccount);
        }
        if self.records[account] != Record::Empty {
            return Err(TokenError::AlreadyInitialized);
        }
        if self.get_mint(mint).is_none() {
            return Err(TokenError::InvalidAccount);
        }
        let a = TokenAccount {
            owner,
            mint,
            amount: 0,
            delegate: None,
            delegated_amount: 0,
            close_authority: None,
            close_revoked: false,
            frozen: false,
        };
        self.records.set(account, Record::Account(a));
        Ok(())
    }

    /// Creates a mint like `init_mint` and hands back the grant for its first
    /// issuance.
    pub fn create_mint(
        &mut self,
        mint: usize,
        decimals: u8,
        mint_authority: Pubkey,
        freeze_authority: Option<Pubkey>,
    ) -> (r: Result<IssueGrant, TokenError>)
        ensures
            match init_mint_spec(old(self)@, mint as int, decimals, mint_authority, freeze_authority) {
                Ok(n) => r is Ok && r->Ok_0.mint() == mint && final(self)@ == n,
                Err(e) => r == Err::<IssueGrant, TokenError>(e) && final(self)@ == old(self)@,
            },
            consistent(old(self)@) ==> consistent(final(self)@),
    {
        match self.init_mint(mint, decimals, mint_authority, freeze_authority) {
            Ok(()) => Ok(IssueGrant { mint }),
            Err(e) => Err(e),
        }
    }

    /// Issues `amount` tokens into `destination` under the mint's own
    /// signature, using the grant up.
    pub fn issue_initial(&mut self, grant: IssueGrant, destination: usize, amount: u64) -> (r: Result<
        (),
        TokenError,
    >)
        ensures
            follows(
                old(self)@,
                final(self)@,
                r,
                issue_spec(old(self)@, grant.mint() as int, destination as int, amount),
            ),
            consistent(old(self)@) ==> consistent(final(self)@),
    {
        self.credit(grant.mint, destination, amount)
    }

    /// Issues `amount` new tokens of `mint` into `destination`.
    pub fn mint_to(&mut self, mint: usize, destination: usize, authority: Pubkey, amount: u64) -> (r:
        Result<(), TokenError>)
        ensures
            follows(
                old(self)@,
                final(self)@,
                r,
                mint_to_spec(old(self)@, mint as int, destination as int, authority, amount),
            ),
            consistent(old(self)@) ==> consistent(final(self)@),
    {
        let (m, d) = match (self.get_mint(mint), self.get_account(destination)) {
            (Some(m), Some(d)) => (m, d),
            _ => return Err(TokenError::InvalidAccount),
        };
        if d.mint != mint {
            return Err(TokenError::MintMismatch);
        }
        if d.frozen {
            return Err(TokenError::AccountFrozen);
        }
        if m.mint_authority != Some(authority) {
            return Err(TokenError::Unauthorized);
        }
        self.credit(mint, destination, amount)
    }

    fn credit(&mut self, mint: usize, destination: usize, amount: u64) -> (r: Result<(), TokenError>)
        ensures
            follows(old(self)@, final(self)@, r, issue_spec(old(self)@, mint as int, destination as int, amount)),
            consistent(old(self)@) ==> consistent(final(self)@),
    {
        proof {
            if consistent(self@) && issue_spec(self@, mint as int, destination as int, amount) is Ok {
                lemma_issue_keeps_books(self@, mint as int, destination as int, amount);
            }
        }
        let (m, d) = match (self.get_mint(mint), self.get_account(destination)) {
            (Some(m), Some(d)) => (m, d),
            _ => return Err(TokenError::InvalidAccount),
        };
        if d.mint != mint {
            return Err(TokenError::MintMismatch);
        }
        if d.frozen {
            return Err(TokenError::AccountFrozen);
        }
        if m.supply > u64::MAX - amount || d.amount > u64::MAX - amount {
            return Err(TokenError::SupplyOverflow);
        }
        self.records.set(mint, Record::Mint(Mint { supply: m.supply + amount, ..m }));
        self.records.set(destination, Record::Account(TokenAccount { amount: d.amount + amount, ..d }));
        Ok(())
    }

    /// Destroys `amount` tokens held in `source`.
    pub fn burn(&mut self, mint: usize, source: usize, authority: Pubkey, amount: u64) -> (r: Result<
        (),
        TokenError,
    >)
        ensures
            follows(old(self)@, final(self)@, r, burn_spec(old(self)@, mint as int, source as int, authority, amount)),
            consistent(old(self)@) ==> consistent(final(self)@),
    {
        proof {
            if consistent(self@) && burn_spec(self@, mint as int, source as int, authority, amount) is Ok {
                lemma_burn_keeps_books(self@, mint as int, source as int, authority, amount);
            }
        }
        let (m, a) = match (self.get_mint(mint), self.get_account(source)) {
            (Some(m), Some(a)) => (m, a),
            _ => return Err(TokenError::InvalidAccount),
        };
        if a.mint != mint {
            return Err(TokenError::MintMismatch);
        }
        if a.frozen {
            return Err(TokenError::AccountFrozen);
        }
        if a.owner != authority {
            return Err(TokenError::Unauthorized);
        }
        if a.amount < amount || m.supply < amount {
            return Err(TokenError::InsufficientBalance);
        }
        self.records.set(mint, Record::Mint(Mint { supply: m.supply - amount, ..m }));
        self.records.set(source, Record::Account(TokenAccount { amount: a.amount - amount, ..a }));
        Ok(())
    }

    /// Moves `amount` from `source` to `destination` on the authority of its
    /// owner or delegate.
    pub fn transfer(&mut self, source: usize, destination: usize, authority: Pubkey, amount: u64) -> (r:
        Result<(), TokenError>)
        ensures
            follows(
                old(self)@,
                final(self)@,
                r,
                transfer_spec(old(self)@, source as int, destination as int, authority, amount),
            ),
            consistent(old(self)@) ==> consistent(final(self)@),
    {
        proof {
            if consistent(self@) && transfer_spec(self@, source as int, destination as int, authority, amount) is Ok {
                lemma_transfer_keeps_books(self@, source as int, destination as int, authority, amount);
            }
        }
        let (a, d) = match (self.get_account(source), self.get_account(destination)) {
            (Some(a), Some(d)) => (a, d),
            _ => return Err(TokenError::InvalidAccount),
        };
        if a.mint != d.mint {
            return Err(TokenError::MintMismatch);
        }
        if a.frozen || d.frozen {
            return Err(TokenError::AccountFrozen);
        }
        let by_owner = a.owner == authority;
        if !by_owner && !(a.delegate == Some(authority) && amount <= a.delegated_amount) {
            return Err(TokenError::Unauthorized);
        }
        if a.amount < amount {
            return Err(TokenError::InsufficientBalance);
        }
        if source == destination {
            return Ok(());
        }
        if d.amount > u64::MAX - amount {
            return Err(TokenError::AmountOverflow);
        }
        let delegated_amount = if by_owner {
            a.delegated_amount
        } else {
            a.delegated_amount - amount
        };
        self.records.set(
            source,
            Record::Account(TokenAccount { amount: a.amount - amount, delegated_amount, ..a }),
        );
        self.records.set(destination, Record::Account(TokenAccount { amount: d.amount + amount, ..d }));
        Ok(())
    }

    /// Lets `delegate` move up to `amount` out of `source`.
    pub fn approve(&mut self, source: usize, delegate: Pubkey, owner: Pubkey, amount: u64) -> (r: Result<
        (),
        TokenError,
    >)
        ensures
            follows(old(self)@, final(self)@, r, approve_spec(old(self)@, source as int, delegate, owner, amount)),
            consistent(old(self)@) ==> consistent(final(self)@),
    {
        proof {
            if consistent(self@) && approve_spec(self@, source as int, delegate, owner, amount) is Ok {
                lemma_approve_keeps_books(self@, source as int, delegate, owner, amount);
            }
        }
        let a = match self.get_account(source) {
            Some(a) => a,
            None => return Err(TokenError::InvalidAccount),
        };
        if a.frozen {
            return Err(TokenError::AccountFrozen);
        }
        if a.owner != owner {
            return Err(TokenError::Unauthorized);
        }
        self.records.set(
            source,
            Record::Account(TokenAccount { delegate: Some(delegate), delegated_amount: amount, ..a }),
        );
        Ok(())
    }

    /// Clears the delegate of `source` and its allowance.
    pub fn revoke(&mut self, source: usize, owner: Pubkey) -> (r: Result<(), TokenError>)
        ensures
            follows(old(self)@, final(self)@, r, revoke_spec(old(self)@, source as int, owner)),
            consistent(old(self)@) ==> consistent(final(self)@),
    {
        proof {
            if consistent(self@) && revoke_spec(self@, source as int, owner) is Ok {
                lemma_revoke_keeps_books(self@, source as int, owner);
            }
        }
        let a = match self.get_account(source) {
            Some(a) => a,
            None => return Err(TokenError::InvalidAccount),
        };
        if a.frozen {
            return Err(TokenError::AccountFrozen);
        }
        if a.owner != owner {
            return Err(TokenError::Unauthorized);
        }
        self.records.set(
            source,
            Record::Account(TokenAccount { delegate: None, delegated_amount: 0, ..a }),
        );
        Ok(())
    }

    /// Freezes `account` on the authority of its mint's freeze authority.
    pub fn freeze_account(&mut self, account: usize, mint: usize, authority: Pubkey) -> (r: Result<
        (),
        TokenError,
    >)
        ensures
            follows(old(self)@, final(self)@, r, freeze_spec(old(self)@, account as int, mint as int, authority)),
            consistent(old(self)@) ==> consistent(final(self)@),
    {
        proof {
            if consistent(self@) && freeze_spec(self@, account as int, mint as int, authority) is Ok {
                lemma_freeze_keeps_books(self@, account as int, mint as int, authority);
            }
        }
        let (m, a) = match (self.get_mint(mint), self.get_account(account)) {
            (Some(m), Some(a)) => (m, a),
            _ => return Err(TokenError::InvalidAccount),
        };
        if a.mint != mint {
            return Err(TokenError::MintMismatch);
        }
        if m.freeze_authority != Some(authority) {
            return Err(TokenError::Unauthorized);
        }
        self.records.set(account, Record::Account(TokenAccount { frozen: true, ..a }));
        Ok(())
    }

    /// Removes the empty token account `account`; its address becomes free.
    pub fn close_account(&mut self, account: usize, destination: usize, authority: Pubkey) -> (r:
        Result<(), TokenError>)
        ensures
            follows(
                old(self)@,
                final(self)@,
                r,
                close_spec(old(self)@, account as int, destination as int, authority),
            ),
            consistent(old(self)@) ==> consistent(final(self)@),
    {
        proof {
            if consistent(self@) && close_spec(self@, account as int, destination as int, authority) is Ok {
                lemma_close_keeps_books(self@, account as int, destination as int, authority);
            }
        }
        let a = match self.get_account(account) {
            Some(a) => a,
            None => return Err(TokenError::InvalidAccount),
        };
        if account == destination {
            return Err(TokenError::InvalidAccount);
        }
        let closer = match a.close_authority {
            Some(c) => c,
            None => a.owner,
        };
        if closer != authority {
            return Err(TokenError::Unauthorized);
        }
        if a.amount != 0 {
            return Err(TokenError::AccountNotEmpty);
        }
        self.records.set(account, Record::Empty);
        Ok(())
    }

    /// Classifies the record at `address` as a mint or a token account.
    pub fn resolve_target(&self, address: usize) -> (r: Result<AuthorityTarget, TokenError>)
        ensures
            r == resolve_spec(self@, address as int),
    {
        match self.record(address) {
            Record::Mint(_) => Ok(AuthorityTarget::Mint(address)),
            Record::Account(_) => Ok(AuthorityTarget::TokenAccount(address)),
            Record::Empty => Err(TokenError::InvalidAccountType),
        }
    }

    /// Reassigns, or with `None` revokes for good, one authority slot of the
    /// mint or token account at `address`.
    pub fn set_authority(
        &mut self,
        address: usize,
        authority_type: AuthorityType,
        current: Pubkey,
        new_authority: Option<Pubkey>,
    ) -> (r: Result<(), TokenError>)
        ensures
            follows(
                old(self)@,
                final(self)@,
                r,
                set_authority_spec(old(self)@, address as int, authority_type, current, new_authority),
            ),
            consistent(old(self)@) ==> consistent(final(self)@),
    {
        proof {
            if consistent(self@) && set_authority_spec(self@, address as int, authority_type, current, new_authority) is Ok {
                lemma_set_authority_keeps_books(self@, address as int, authority_type, current, new_authority);
            }
        }
        let target = match self.resolve_target(address) {
            Ok(t) => t,
            Err(e) => return Err(e),
        };
        match target {
            AuthorityTarget::Mint(i) => {
                let m = match self.get_mint(i) {
                    Some(m) => m,
                    None => return Err(TokenError::InvalidAccountType),
                };
                let updated = match authority_type {
                    AuthorityType::MintTokens => {
                        match check_slot(m.mint_authority, current) {
                            Ok(()) => Mint { mint_authority: new_authority, ..m },
                            Err(e) => return Err(e),
                        }
                    },
                    AuthorityType::FreezeAccount => {
                        match check_slot(m.freeze_authority, current) {
                            Ok(()) => Mint { freeze_authority: new_authority, ..m },
                            Err(e) => return Err(e),
                        }
                    },
                    _ => return Err(TokenError::InvalidAuthorityType),
                };
                self.records.set(i, Record::Mint(updated));
            },
            AuthorityTarget::TokenAccount(i) => {
                let a = match self.get_account(i) {
                    Some(a) => a,
                    None => return Err(TokenError::InvalidAccountType),
                };
                if a.frozen {
                    return Err(TokenError::AccountFrozen);
                }
                let updated = match authority_type {
                    AuthorityType::AccountOwner => {
                        match check_slot(Some(a.owner), current) {
                            Ok(()) => match new_authority {
                                Some(o) => TokenAccount { owner: o, delegate: None, delegated_amount: 0, ..a },
                                None => return Err(TokenError::InvalidAuthorityType),
                            },
                            Err(e) => return Err(e),
                        }
                    },
                    AuthorityType::CloseAccount => {
                        let slot = if a.close_revoked {
                            None
                        } else {
                            match a.close_authority {
                                Some(c) => Some(c),
                                None => Some(a.owner),
                            }
                        };
                        let close_revoked = match new_authority {
                            Some(_) => false,
                            None => true,
                        };
                        match check_slot(slot, current) {
                            Ok(()) => TokenAccount { close_authority: new_authority, close_revoked, ..a },
                            Err(e) => return Err(e),
                        }
                    },
                    _ => return Err(TokenError::InvalidAuthorityType),
                };
                self.records.set(i, Record::Account(updated));
            },
        }
        Ok(())
    }
}

/// Whether `current` may reassign a slot that holds `slot`.
fn check_slot(slot: Option<Pubkey>, current: Pubkey) -> (r: Result<(), TokenError>)
    ensures
        r == reassign_slot(slot, current),
{
    match slot {
        None => Err(TokenError::AuthorityAlreadyRevoked),
        Some(holder) => if holder != current {
            Err(TokenError::Unauthorized)
        } else {
            Ok(())
        },
    }
}

} // verus!
