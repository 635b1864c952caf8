//! The accounts each instruction works on, and the arguments of the ledger
//! calls the instructions make.
use vstd::prelude::*;
use crate::types::Pubkey;

verus! {

/// Creates a mint with its first token account and issues the initial supply.
#[derive(Clone, Copy, Debug, PartialEq, Eq, Structural)]
pub struct Initialize {
    pub mint: usize,
    pub initial_token_account: usize,
    pub authority: Pubkey,
}

#[derive(Clone, Copy, Debug, PartialEq, Eq, Structural)]
pub struct MintTokens {
    pub mint: usize,
    pub to: usize,
    pub authority: Pubkey,
}

#[derive(Clone, Copy, Debug, PartialEq, Eq, Structural)]
pub struct BurnTokens {
    pub mint: usize,
    pub from: usize,
    pub authority: Pubkey,
}

/// A transfer whose fees go to two treasuries.
#[derive(Clone, Copy, Debug, PartialEq, Eq, Structural)]
pub struct TransferTokens {
    pub from: usize,
    pub to: usize,
    pub ecosystem_treasury: usize,
    pub reward_treasury: usize,
    pub authority: Pubkey,
}

#[derive(Clone, Copy, Debug, PartialEq, Eq, Structural)]
pub struct InitializeAccountContext {
    pub account: usize,
    pub mint: usize,
    pub owner: Pubkey,
}

#[derive(Clone, Copy, Debug, PartialEq, Eq, Structural)]
pub struct InitializeMintContext {
    pub mint: usize,
    pub mint_authority: Pubkey,
}

#[derive(Clone, Copy, Debug, PartialEq, Eq, Structural)]
pub struct ApproveContext {
    pub source: usize,
    pub delegate: Pubkey,
    pub owner: Pubkey,
}

#[derive(Clone, Copy, Debug, PartialEq, Eq, Structural)]
pub struct RevokeContext {
    pub source: usize,
    pub owner: Pubkey,
}

/// `account_or_mint` is resolved to a mint or a token account when the
/// instruction runs.
#[derive(Clone, Copy, Debug, PartialEq, Eq, Structural)]
pub struct SetAuthorityContext {
    pub account_or_mint: usize,
    pub current_authority: Pubkey,
}

#[derive(Clone, Copy, Debug, PartialEq, Eq, Structural)]
pub struct CloseAccountContext {
    pub account: usize,
    pub destination: usize,
    pub authority: Pubkey,
}

/// Arguments of a ledger `mint_to` call.
#[derive(Clone, Copy, Debug, PartialEq, Eq, Structural)]
pub struct MintTo {
    pub mint: usize,
    pub to: usize,
    pub authority: Pubkey,
}

/// Arguments of a ledger `burn` call.
#[derive(Clone, Copy, Debug, PartialEq, Eq, Structural)]
pub struct Burn {
    pub mint: usize,
    pub from: usize,
    pub authority: Pubkey,
}

/// Arguments of one ledger `transfer` call.
#[derive(Clone, Copy, Debug, PartialEq, Eq, Structural)]
pub struct Transfer {
    pub from: usize,
    pub to: usize,
    pub authority: Pubkey,
}

/// Arguments of a ledger `approve` call.
#[derive(Clone, Copy, Debug, PartialEq, Eq, Structural)]
pub struct Approve {
    pub source: usize,
    pub delegate: Pubkey,
    pub authority: Pubkey,
}

/// Arguments of a ledger `revoke` call.
#[derive(Clone, Copy, Debug, PartialEq, Eq, Structural)]
pub struct Revoke {
    pub source: usize,
    pub authority: Pubkey,
}

/// Arguments of a ledger `set_authority` call.
#[derive(Clone, Copy, Debug, PartialEq, Eq, Structural)]
pub struct SetAuthority {
    pub account_or_mint: usize,
    pub current_authority: Pubkey,
}

} // verus!
