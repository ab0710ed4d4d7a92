//! The reasons for which an operation is refused.

use vstd::prelude::*;

verus! {

/// Why an operation was refused. A refused operation changes nothing.
#[derive(Clone, Copy, Debug, PartialEq, Eq, Structural)]
pub enum ErrorCode {
    /// The depositor's external account holds less than the amount to deposit.
    InsufficientBalance,
    /// The ledger records less for the owner than the amount to withdraw.
    InsufficientUserBalance,
    /// The token is not on the bank's whitelist.
    InvalidToken,
    /// The token is on the bank's whitelist already.
    TokenAlreadyWhitelisted,
    /// The owner's external account and the bank's custody account hold different tokens.
    TokenMismatch,
    /// The credited balance would not fit in 64 bits.
    LedgerOverflow,
    /// The external transfer was attempted and did not go through.
    TransferFailed,
}

} // verus!
