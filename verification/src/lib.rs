//! A custodial token ledger.
//!
//! A bank holds deposited tokens in pooled custody accounts and records, per owner and per
//! token, how much each depositor may withdraw. Moving the tokens is the business of an
//! external transfer service; this crate keeps the books: the whitelist of accepted tokens,
//! the per-owner balances, and the rules that tie every ledger change to one external
//! transfer that went through.

pub mod error;
pub mod identity;
pub mod laws;
pub mod ledger;
pub mod provision;
pub mod registry;
pub mod transfer;

pub use error::ErrorCode;
pub use identity::Identity;
pub use ledger::BankAccount;
pub use provision::{
    add_token, initialize_bank, initialize_bank_account, AddToken, InitializeBank,
    InitializeBankAccount,
};
pub use registry::Bank;
pub use transfer::{
    deposit, withdraw, Accounts, Action, Deposit, Event, TokenAccount, TransferOrder, Withdraw,
};
