//! Provisioning: setting up a bank and its ledger accounts, and whitelisting tokens.
//!
//! Whether the caller may act for the bank or for an owner is settled before these
//! operations run; they take that for granted and test nothing of it.

use vstd::prelude::*;
use crate::error::ErrorCode;
use crate::identity::Identity;
use crate::ledger::BankAccount;
use crate::registry::Bank;

verus! {

/// The accounts of `initialize_bank_account`.
#[derive(Clone, Debug, PartialEq, Eq)]
pub struct InitializeBankAccount {
    /// The ledger account to set up.
    pub user_bank_account: BankAccount,
    /// The principal the account will belong to.
    pub owner: Identity,
}

/// The accounts of `initialize_bank`.
#[derive(Clone, Debug, PartialEq, Eq)]
pub struct InitializeBank {
    /// The registry to set up.
    pub bank: Bank,
    /// The bank's administrative authority.
    pub authority: Identity,
}

/// The accounts of `add_token`.
#[derive(Clone, Debug, PartialEq, Eq)]
pub struct AddToken {
    /// The registry to extend.
    pub bank: Bank,
    /// The bank's administrative authority.
    pub authority: Identity,
}

/// What `add_token` answers for a whitelist and a token: a token that is listed already is
/// refused.
pub open spec fn add_token_result(whitelist: Set<Identity>, mint: Identity) -> Result<
    (),
    ErrorCode,
> {
    if whitelist.contains(mint) {
        Err(ErrorCode::TokenAlreadyWhitelisted)
    } else {
        Ok(())
    }
}

/// The whitelist after `add_token`.
pub open spec fn add_token_whitelist(whitelist: Set<Identity>, mint: Identity) -> Set<Identity> {
    whitelist.insert(mint)
}

/// Puts `mint` on the bank's whitelist. A token that is listed already is refused with
/// `TokenAlreadyWhitelisted`, and nothing changes.
pub fn add_token(ctx: &mut AddToken, mint: Identity) -> (result: Result<(), ErrorCode>)
    ensures
        result == add_token_result(old(ctx).bank@, mint),
        final(ctx).bank@ == add_token_whitelist(old(ctx).bank@, mint),
        final(ctx).bank.whitelist_tokens@ == if result is Ok {
            old(ctx).bank.whitelist_tokens@.push(mint)
        } else {
            old(ctx).bank.whitelist_tokens@
        },
        result is Err ==> *final(ctx) == *old(ctx),
        final(ctx).authority == old(ctx).authority,
        old(ctx).bank.wf() ==> final(ctx).bank.wf(),
{
    if ctx.bank.is_token_whitelisted(mint) {
        return Err(ErrorCode::TokenAlreadyWhitelisted);
    }
    ctx.bank.add_token(mint);
    Ok(())
}

/// Sets up the bank's registry: afterwards it accepts no token.
pub fn initialize_bank(ctx: &mut InitializeBank) -> (result: Result<(), ErrorCode>)
    ensures
        result is Ok,
        final(ctx).bank.whitelist_tokens@ == Seq::<Identity>::empty(),
        final(ctx).bank@ == Set::<Identity>::empty(),
        final(ctx).bank.wf(),
        final(ctx).authority == old(ctx).authority,
{
    ctx.bank.whitelist_tokens = Vec::new();
    Ok(())
}

/// Sets up a ledger account: afterwards it belongs to `ctx.owner` and records nothing.
pub fn initialize_bank_account(ctx: &mut InitializeBankAccount) -> (result: Result<
    (),
    ErrorCode,
>)
    ensures
        result is Ok,
        final(ctx).user_bank_account.owner == old(ctx).owner,
        final(ctx).user_bank_account.balances@ == Seq::<(Identity, u64)>::empty(),
        final(ctx).user_bank_account@ == Map::<Identity, nat>::empty(),
        final(ctx).user_bank_account.wf(),
        final(ctx).owner == old(ctx).owner,
{
    ctx.user_bank_account.owner = ctx.owner;
    ctx.user_bank_account.balances = Vec::new();
    Ok(())
}

} // verus!
