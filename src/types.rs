use vstd::prelude::*;

verus! {

/// The identity of a signer or owner on the ledger.
pub type Pubkey = u64;

/// Which authority slot of a mint or a token account is being reassigned.
#[derive(Clone, Copy, Debug, PartialEq, Eq, Structural)]
pub enum AuthorityType {
    /// The mint's authority to issue new tokens.
    MintTokens,
    /// The mint's authority to freeze token accounts.
    FreezeAccount,
    /// A token account's owner.
    AccountOwner,
    /// The identity allowed to close a token account.
    CloseAccount,
}

/// Every way an operation of this library can fail.
#[derive(Clone, Copy, Debug, PartialEq, Eq, Structural)]
pub enum TokenError {
    /// The signer is not the authority or owner the operation requires.
    Unauthorized,
    /// The source holds fewer tokens than the operation moves or burns.
    InsufficientBalance,
    /// An amount computation does not fit in 64 bits.
    AmountOverflow,
    /// Minting would push the supply or a balance past 64 bits.
    SupplyOverflow,
    /// An authority target is neither a mint nor a token account.
    InvalidAccountType,
    /// The authority type does not apply to the kind of target given.
    InvalidAuthorityType,
    /// The authority slot was revoked and can never be set again.
    AuthorityAlreadyRevoked,
    /// One leg of a fee-splitting transfer could not commit.
    TransferFailed,
    /// A token account with a nonzero balance cannot be closed.
    AccountNotEmpty,
    /// The accounts of one operation belong to different mints.
    MintMismatch,
    /// A token account taking part in the operation is frozen.
    AccountFrozen,
    /// An address does not hold the kind of record the operation needs.
    InvalidAccount,
    /// An address that should be free already holds a record.
    AlreadyInitialized,
}

} // verus!
