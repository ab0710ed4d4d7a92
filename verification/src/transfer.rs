//! The transfer orchestrator: deposits and withdrawals.
//!
//! Tokens move in the outside world, through a transfer service that this crate does not
//! run. An operation is therefore taken in two steps. Entered with `Event::Begin` it tests
//! the request against its preconditions and, where all of them hold, answers with the
//! transfer to perform. The caller performs that transfer and enters the operation again,
//! with the same accounts and amount, to report how it went; only a transfer that went
//! through changes the ledger. Every entry tests the same preconditions, so no report can
//! make a refused request succeed.

use vstd::prelude::*;
use crate::error::ErrorCode;
use crate::identity::Identity;
use crate::ledger::{balance, credited, credited_entries, debited, debited_entries, BankAccount};
use crate::registry::Bank;

verus! {

/// What an operation reads of an external token account: where it is, which token it
/// holds, and how much of it.
#[derive(Clone, Copy, Debug, PartialEq, Eq)]
pub struct TokenAccount {
    /// The account's own address.
    pub address: Identity,
    /// The token the account holds.
    pub mint: Identity,
    /// The amount it holds, as the outside world reports it.
    pub amount: u64,
}

/// A transfer for the external service to perform: `amount` of `token` from the account
/// `from` to the account `to`, authorized by `authority`.
#[derive(Clone, Copy, Debug, PartialEq, Eq)]
pub struct TransferOrder {
    /// The token to move.
    pub token: Identity,
    /// The address of the account the tokens leave.
    pub from: Identity,
    /// The address of the account that receives them.
    pub to: Identity,
    /// Who authorizes the transfer.
    pub authority: Identity,
    /// How much to move, in the token's smallest unit.
    pub amount: u64,
}

/// What the caller reports when it enters an operation.
#[derive(Clone, Copy, Debug, PartialEq, Eq)]
pub enum Event {
    /// The operation is requested; no transfer has been attempted for it.
    Begin,
    /// The transfer that the operation asked for went through.
    TransferSucceeded,
    /// The transfer that the operation asked for was attempted and did not go through.
    TransferFailed,
}

/// What the caller is to do next.
#[derive(Clone, Copy, Debug, PartialEq, Eq)]
pub enum Action {
    /// Perform this transfer, then enter the operation again with its outcome.
    Transfer(TransferOrder),
    /// Nothing: the operation is complete and the ledger shows it.
    Finish,
}

/// The accounts of a deposit.
#[derive(Clone, Debug, PartialEq, Eq)]
pub struct Deposit {
    /// The depositor's external account, which the tokens leave.
    pub user_ata: TokenAccount,
    /// The bank's pooled custody account, which receives them.
    pub bank_ata: TokenAccount,
    /// The depositor's ledger account.
    pub user_bank_account: BankAccount,
    /// The bank's whitelist.
    pub bank: Bank,
    /// The depositor, who authorizes the transfer.
    pub user_authority: Identity,
}

/// The accounts of a withdrawal.
#[derive(Clone, Debug, PartialEq, Eq)]
pub struct Withdraw {
    /// The owner's external account, which receives the tokens.
    pub user_ata: TokenAccount,
    /// The bank's pooled custody account, which the tokens leave.
    pub bank_ata: TokenAccount,
    /// The owner's ledger account.
    pub user_bank_account: BankAccount,
    /// The bank's whitelist.
    pub bank: Bank,
    /// The bank's authority, which authorizes the transfer.
    pub bank_authority: Identity,
}

/// The accounts of an operation as the rules see them: the two external accounts, the
/// owner's ledger as a map, the whitelist as a set, and who authorizes the transfer.
pub struct Accounts {
    /// The owner's external account.
    pub user_ata: TokenAccount,
    /// The bank's pooled custody account.
    pub bank_ata: TokenAccount,
    /// The owner of the ledger account.
    pub owner: Identity,
    /// What the ledger records for the owner, token by token.
    pub ledger: Map<Identity, nat>,
    /// The tokens the bank accepts.
    pub whitelist: Set<Identity>,
    /// Who authorizes the transfer: the depositor for a deposit, the bank for a withdrawal.
    pub authority: Identity,
}

impl View for Deposit {
    type V = Accounts;

    open spec fn view(&self) -> Accounts {
        Accounts {
            user_ata: self.user_ata,
            bank_ata: self.bank_ata,
            owner: self.user_bank_account.owner,
            ledger: self.user_bank_account@,
            whitelist: self.bank@,
            authority: self.user_authority,
        }
    }
}

impl View for Withdraw {
    type V = Accounts;

    open spec fn view(&self) -> Accounts {
        Accounts {
            user_ata: self.user_ata,
            bank_ata: self.bank_ata,
            owner: self.user_bank_account.owner,
            ledger: self.user_bank_account@,
            whitelist: self.bank@,
            authority: self.bank_authority,
        }
    }
}

/// Why a deposit of `amount` is refused, if it is. The token of a deposit is the one the
/// depositor's external account holds. The preconditions, in the order in which they are
/// tested: the token is whitelisted, the custody account holds the same token, the external
/// account holds the amount, and the credited balance fits in 64 bits.
pub open spec fn deposit_refusal(accounts: Accounts, amount: u64) -> Option<ErrorCode> {
    let token = accounts.user_ata.mint;
    if !accounts.whitelist.contains(token) {
        Some(ErrorCode::InvalidToken)
    } else if accounts.bank_ata.mint != token {
        Some(ErrorCode::TokenMismatch)
    } else if accounts.user_ata.amount < amount {
        Some(ErrorCode::InsufficientBalance)
    } else if balance(accounts.ledger, token) + amount > u64::MAX {
        Some(ErrorCode::LedgerOverflow)
    } else {
        None
    }
}

/// The transfer a deposit asks for: from the depositor's external account to the bank's
/// custody account, authorized by the depositor.
pub open spec fn deposit_order(accounts: Accounts, amount: u64) -> TransferOrder {
    TransferOrder {
        token: accounts.user_ata.mint,
        from: accounts.user_ata.address,
        to: accounts.bank_ata.address,
        authority: accounts.authority,
        amount,
    }
}

/// What `deposit` answers.
pub open spec fn deposit_result(accounts: Accounts, amount: u64, event: Event) -> Result<
    Action,
    ErrorCode,
> {
    match deposit_refusal(accounts, amount) {
        Some(e) => Err(e),
        None => match event {
            Event::Begin => Ok(Action::Transfer(deposit_order(accounts, amount))),
            Event::TransferSucceeded => Ok(Action::Finish),
            Event::TransferFailed => Err(ErrorCode::TransferFailed),
        },
    }
}

/// Whether `deposit` credits the ledger: only for a request that meets the preconditions,
/// when its transfer is reported to have gone through.
pub open spec fn deposit_credits(accounts: Accounts, amount: u64, event: Event) -> bool {
    deposit_refusal(accounts, amount) is None && event == Event::TransferSucceeded
}

/// The accounts after `deposit`.
pub open spec fn deposit_accounts(accounts: Accounts, amount: u64, event: Event) -> Accounts {
    if deposit_credits(accounts, amount, event) {
        Accounts {
            ledger: credited(accounts.ledger, accounts.user_ata.mint, amount as nat),
            ..accounts
        }
    } else {
        accounts
    }
}

/// Why a withdrawal of `amount` is refused, if it is. The token of a withdrawal is the one
/// the bank's custody account holds. The preconditions, in the order in which they are
/// tested: the token is whitelisted, the owner's external account holds the same token, and
/// the ledger records at least the amount for the owner.
pub open spec fn withdraw_refusal(accounts: Accounts, amount: u64) -> Option<ErrorCode> {
    let token = accounts.bank_ata.mint;
    if !accounts.whitelist.contains(token) {
        Some(ErrorCode::InvalidToken)
    } else if accounts.user_ata.mint != token {
        Some(ErrorCode::TokenMismatch)
    } else if balance(accounts.ledger, token) < amount {
        Some(ErrorCode::InsufficientUserBalance)
    } else {
        None
    }
}

/// The transfer a withdrawal asks for: from the bank's custody account to the owner's
/// external account, authorized by the bank.
pub open spec fn withdraw_order(accounts: Accounts, amount: u64) -> TransferOrder {
    TransferOrder {
        token: accounts.bank_ata.mint,
        from: accounts.bank_ata.address,
        to: accounts.user_ata.address,
        authority: accounts.authority,
        amount,
    }
}

/// What `withdraw` answers.
pub open spec fn withdraw_result(accounts: Accounts, amount: u64, event: Event) -> Result<
    Action,
    ErrorCode,
> {
    match withdraw_refusal(accounts, amount) {
        Some(e) => Err(e),
        None => match event {
            Event::Begin => Ok(Action::Transfer(withdraw_order(accounts, amount))),
            Event::TransferSucceeded => Ok(Action::Finish),
            Event::TransferFailed => Err(ErrorCode::TransferFailed),
        },
    }
}

/// Whether `withdraw` debits the ledger: only for a request that meets the preconditions,
/// when its transfer is reported to have gone through, and only where there is something
/// to take.
pub open spec fn withdraw_debits(accounts: Accounts, amount: u64, event: Event) -> bool {
    withdraw_refusal(accounts, amount) is None && event == Event::TransferSucceeded && amount > 0
}

/// The accounts after `withdraw`.
pub open spec fn withdraw_accounts(accounts: Accounts, amount: u64, event: Event) -> Accounts {
    if withdraw_debits(accounts, amount, event) {
        Accounts {
            ledger: debited(accounts.ledger, accounts.bank_ata.mint, amount as nat),
            ..accounts
        }
    } else {
        accounts
    }
}

/// One step of a deposit of `amount`.
///
/// A request that fails a precondition is refused with that precondition's error, whatever
/// the event. Otherwise: on `Begin` the answer is the transfer to perform; on
/// `TransferFailed` the deposit is refused with `TransferFailed`; on `TransferSucceeded`
/// the depositor's ledger is credited with `amount` and the deposit is complete. Nothing
/// but that credit ever changes: in every other case the accounts are left exactly as they
/// were.
pub fn deposit(ctx: &mut Deposit, amount: u64, event: Event) -> (result: Result<Action, ErrorCode>)
    ensures
        result == deposit_result(old(ctx)@, amount, event),
        final(ctx)@ == deposit_accounts(old(ctx)@, amount, event),
        !deposit_credits(old(ctx)@, amount, event) ==> *final(ctx) == *old(ctx),
        deposit_credits(old(ctx)@, amount, event) ==> final(ctx).user_bank_account.balances@
            == credited_entries(
            old(ctx).user_bank_account.balances@,
            old(ctx).user_ata.mint,
            amount,
        ),
        final(ctx).bank == old(ctx).bank,
        old(ctx).user_bank_account.wf() ==> final(ctx).user_bank_account.wf(),
{
    let token = ctx.user_ata.mint;
    if !ctx.bank.is_token_whitelisted(token) {
        return Err(ErrorCode::InvalidToken);
    }
    if ctx.bank_ata.mint != token {
        return Err(ErrorCode::TokenMismatch);
    }
    if ctx.user_ata.amount < amount {
        return Err(ErrorCode::InsufficientBalance);
    }
    if ctx.user_bank_account.balance_of(token) > u64::MAX - amount {
        return Err(ErrorCode::LedgerOverflow);
    }
    match event {
        Event::Begin => Ok(
            Action::Transfer(
                TransferOrder {
                    token,
                    from: ctx.user_ata.address,
                    to: ctx.bank_ata.address,
                    authority: ctx.user_authority,
                    amount,
                },
            ),
        ),
        Event::TransferFailed => Err(ErrorCode::TransferFailed),
        Event::TransferSucceeded => match ctx.user_bank_account.add_balance(token, amount) {
            Ok(()) => Ok(Action::Finish),
            Err(e) => Err(e),
        },
    }
}

/// One step of a withdrawal of `amount`.
///
/// A request that fails a precondition is refused with that precondition's error, whatever
/// the event; in particular no transfer is ever asked for beyond what the ledger records
/// for the owner. Otherwise: on `Begin` the answer is the transfer to perform; on
/// `TransferFailed` the withdrawal is refused with `TransferFailed`; on
/// `TransferSucceeded` the owner's ledger is debited by `amount` and the withdrawal is
/// complete. Nothing but that debit ever changes: in every other case the accounts are left
/// exactly as they were.
pub fn withdraw(ctx: &mut Withdraw, amount: u64, event: Event) -> (result: Result<
    Action,
    ErrorCode,
>)
    ensures
        result == withdraw_result(old(ctx)@, amount, event),
        final(ctx)@ == withdraw_accounts(old(ctx)@, amount, event),
        !withdraw_debits(old(ctx)@, amount, event) ==> *final(ctx) == *old(ctx),
        withdraw_debits(old(ctx)@, amount, event) ==> final(ctx).user_bank_account.balances@
            == debited_entries(
            old(ctx).user_bank_account.balances@,
            old(ctx).bank_ata.mint,
            amount,
        ),
        final(ctx).bank == old(ctx).bank,
        old(ctx).user_bank_account.wf() ==> final(ctx).user_bank_account.wf(),
{
    let token = ctx.bank_ata.mint;
    if !ctx.bank.is_token_whitelisted(token) {
        return Err(ErrorCode::InvalidToken);
    }
    if ctx.user_ata.mint != token {
        return Err(ErrorCode::TokenMismatch);
    }
    if !ctx.user_bank_account.has_sufficient_balance(token, amount) {
        return Err(ErrorCode::InsufficientUserBalance);
    }
    match event {
        Event::Begin => Ok(
            Action::Transfer(
                TransferOrder {
                    token,
                    from: ctx.bank_ata.address,
                    to: ctx.user_ata.address,
                    authority: ctx.bank_authority,
                    amount,
                },
            ),
        ),
        Event::TransferFailed => Err(ErrorCode::TransferFailed),
        Event::TransferSucceeded => {
            if amount == 0 {
                // A token with no entry covers a withdrawal of nothing: there is nothing to
                // take, and no entry to take it from.
                return Ok(Action::Finish);
            }
            match ctx.user_bank_account.subtract_balance(token, amount) {
                Ok(()) => Ok(Action::Finish),
                Err(e) => Err(e),
            }
        },
    }
}

} // verus!
