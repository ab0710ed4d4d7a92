//! What holds of the bank's books, whatever is asked of them.
//!
//! The operations of this crate are specified by spec functions over the views of their
//! accounts. The theorems here are stated over the same functions, for single operations
//! and for whole histories of requests.

use vstd::prelude::*;
use crate::error::ErrorCode;
use crate::identity::Identity;
use crate::ledger::{balance, credited, debited};
use crate::provision::{add_token_result, add_token_whitelist};
use crate::transfer::{
    deposit_accounts, deposit_credits, deposit_refusal, deposit_result, withdraw_accounts,
    withdraw_debits, withdraw_refusal, withdraw_result, Accounts, Action, Event, TokenAccount,
};

verus! {

/// What the bank keeps between operations, for one owner: the owner's ledger and the
/// whitelist.
pub struct Books {
    /// The owner of the ledger account.
    pub owner: Identity,
    /// What the ledger records for the owner, token by token.
    pub ledger: Map<Identity, nat>,
    /// The tokens the bank accepts.
    pub whitelist: Set<Identity>,
}

/// One entry into an operation, with what the outside world shows at that moment.
pub enum Request {
    /// An entry into `deposit`.
    Deposit {
        user_ata: TokenAccount,
        bank_ata: TokenAccount,
        authority: Identity,
        amount: u64,
        event: Event,
    },
    /// An entry into `withdraw`.
    Withdraw {
        user_ata: TokenAccount,
        bank_ata: TokenAccount,
        authority: Identity,
        amount: u64,
        event: Event,
    },
    /// A call of `add_token`.
    AddToken { mint: Identity },
}

/// The accounts that an operation sees when it is entered on `books`.
pub open spec fn accounts_of(
    books: Books,
    user_ata: TokenAccount,
    bank_ata: TokenAccount,
    authority: Identity,
) -> Accounts {
    Accounts {
        user_ata,
        bank_ata,
        owner: books.owner,
        ledger: books.ledger,
        whitelist: books.whitelist,
        authority,
    }
}

/// What an operation leaves in the books.
pub open spec fn books_of(accounts: Accounts) -> Books {
    Books { owner: accounts.owner, ledger: accounts.ledger, whitelist: accounts.whitelist }
}

/// The books after one request.
pub open spec fn step(books: Books, request: Request) -> Books {
    match request {
        Request::Deposit { user_ata, bank_ata, authority, amount, event } => books_of(
            deposit_accounts(accounts_of(books, user_ata, bank_ata, authority), amount, event),
        ),
        Request::Withdraw { user_ata, bank_ata, authority, amount, event } => books_of(
            withdraw_accounts(accounts_of(books, user_ata, bank_ata, authority), amount, event),
        ),
        Request::AddToken { mint } => Books {
            whitelist: add_token_whitelist(books.whitelist, mint),
            ..books
        },
    }
}

/// The books after a history of requests, taken in order.
pub open spec fn run(books: Books, history: Seq<Request>) -> Books
    decreases history.len(),
{
    if history.len() == 0 {
        books
    } else {
        step(run(books, history.drop_last()), history.last())
    }
}

/// What a request adds to the balance of `token`: the amount of a deposit of that token
/// that is completed by this request, and nothing otherwise.
pub open spec fn paid_in(books: Books, request: Request, token: Identity) -> nat {
    match request {
        Request::Deposit { user_ata, bank_ata, authority, amount, event } => {
            if user_ata.mint == token && deposit_result(
                accounts_of(books, user_ata, bank_ata, authority),
                amount,
                event,
            ) == Ok::<Action, ErrorCode>(Action::Finish) {
                amount as nat
            } else {
                0
            }
        },
        _ => 0,
    }
}

/// What a request takes from the balance of `token`: the amount of a withdrawal of that
/// token that is completed by this request, and nothing otherwise.
pub open spec fn paid_out(books: Books, request: Request, token: Identity) -> nat {
    match request {
        Request::Withdraw { user_ata, bank_ata, authority, amount, event } => {
            if bank_ata.mint == token && withdraw_result(
                accounts_of(books, user_ata, bank_ata, authority),
                amount,
                event,
            ) == Ok::<Action, ErrorCode>(Action::Finish) {
                amount as nat
            } else {
                0
            }
        },
        _ => 0,
    }
}

/// The sum of the amounts of `token` that the completed deposits of a history paid in.
pub open spec fn total_paid_in(books: Books, history: Seq<Request>, token: Identity) -> nat
    decreases history.len(),
{
    if history.len() == 0 {
        0
    } else {
        total_paid_in(books, history.drop_last(), token) + paid_in(
            run(books, history.drop_last()),
            history.last(),
            token,
        )
    }
}

/// The sum of the amounts of `token` that the completed withdrawals of a history paid out.
pub open spec fn total_paid_out(books: Books, history: Seq<Request>, token: Identity) -> nat
    decreases history.len(),
{
    if history.len() == 0 {
        0
    } else {
        total_paid_out(books, history.drop_last(), token) + paid_out(
            run(books, history.drop_last()),
            history.last(),
            token,
        )
    }
}

/// One request changes the balance of a token by what it pays in, less what it pays out.
pub proof fn step_conserves(books: Books, request: Request, token: Identity)
    ensures
        balance(step(books, request).ledger, token) == balance(books.ledger, token) + paid_in(
            books,
            request,
            token,
        ) - paid_out(books, request, token),
{
}

/// Conservation: after any history of requests, the balance of a token is what it was
/// before, plus the amounts of the completed deposits of that token, less the amounts of
/// its completed withdrawals. Requests that were refused, whose transfer failed, or that
/// only asked for a transfer count for nothing.
pub proof fn conservation(books: Books, history: Seq<Request>, token: Identity)
    ensures
        balance(run(books, history).ledger, token) == balance(books.ledger, token) + total_paid_in(
            books,
            history,
            token,
        ) - total_paid_out(books, history, token),
    decreases history.len(),
{
    if history.len() > 0 {
        conservation(books, history.drop_last(), token);
        step_conserves(run(books, history.drop_last()), history.last(), token);
    }
}

/// No balance is ever negative: whatever the history, what was withdrawn of a token never
/// exceeds what the ledger recorded at the start plus what was deposited since.
pub proof fn balance_never_negative(books: Books, history: Seq<Request>, token: Identity)
    ensures
        balance(run(books, history).ledger, token) >= 0,
        total_paid_out(books, history, token) <= balance(books.ledger, token) + total_paid_in(
            books,
            history,
            token,
        ),
{
    conservation(books, history, token);
}

/// Whitelist gating of deposits: a deposit of a token that is not whitelisted is refused
/// with `InvalidToken` at every entry, and leaves ledger and whitelist as they were.
pub proof fn unlisted_deposit_is_refused(accounts: Accounts, amount: u64, event: Event)
    requires
        !accounts.whitelist.contains(accounts.user_ata.mint),
    ensures
        deposit_result(accounts, amount, event) == Err::<Action, ErrorCode>(
            ErrorCode::InvalidToken,
        ),
        deposit_accounts(accounts, amount, event) == accounts,
{
}

/// Whitelist gating of withdrawals: a withdrawal of a token that is not whitelisted is
/// refused with `InvalidToken` at every entry, and leaves ledger and whitelist as they
/// were.
pub proof fn unlisted_withdrawal_is_refused(accounts: Accounts, amount: u64, event: Event)
    requires
        !accounts.whitelist.contains(accounts.bank_ata.mint),
    ensures
        withdraw_result(accounts, amount, event) == Err::<Action, ErrorCode>(
            ErrorCode::InvalidToken,
        ),
        withdraw_accounts(accounts, amount, event) == accounts,
{
}

/// No overdraft, first half: a withdrawal of a whitelisted token, between two accounts of
/// that token, is refused with `InsufficientUserBalance` at every entry when it asks for
/// more than the ledger records, and nothing changes.
pub proof fn overdraft_is_refused(accounts: Accounts, amount: u64, event: Event)
    requires
        accounts.whitelist.contains(accounts.bank_ata.mint),
        accounts.user_ata.mint == accounts.bank_ata.mint,
        amount > balance(accounts.ledger, accounts.bank_ata.mint),
    ensures
        withdraw_result(accounts, amount, event) == Err::<Action, ErrorCode>(
            ErrorCode::InsufficientUserBalance,
        ),
        withdraw_accounts(accounts, amount, event) == accounts,
{
}

/// No overdraft, second half: a withdrawal of a whitelisted token, between two accounts of
/// that token, of no more than the ledger records is accepted; once its transfer has gone
/// through, the balance of the token is lower by exactly the amount, and no other balance
/// has changed.
pub proof fn covered_withdrawal_succeeds(accounts: Accounts, amount: u64, other: Identity)
    requires
        accounts.whitelist.contains(accounts.bank_ata.mint),
        accounts.user_ata.mint == accounts.bank_ata.mint,
        amount <= balance(accounts.ledger, accounts.bank_ata.mint),
    ensures
        withdraw_result(accounts, amount, Event::Begin) is Ok,
        withdraw_result(accounts, amount, Event::TransferSucceeded) == Ok::<Action, ErrorCode>(
            Action::Finish,
        ),
        balance(
            withdraw_accounts(accounts, amount, Event::TransferSucceeded).ledger,
            accounts.bank_ata.mint,
        ) == balance(accounts.ledger, accounts.bank_ata.mint) - amount,
        other != accounts.bank_ata.mint ==> balance(
            withdraw_accounts(accounts, amount, Event::TransferSucceeded).ledger,
            other,
        ) == balance(accounts.ledger, other),
{
}

/// A deposit that meets the preconditions is accepted; once its transfer has gone through,
/// the balance of the token is higher by exactly the amount, and no other balance has
/// changed.
pub proof fn accepted_deposit_succeeds(accounts: Accounts, amount: u64, other: Identity)
    requires
        deposit_refusal(accounts, amount) is None,
    ensures
        deposit_result(accounts, amount, Event::Begin) is Ok,
        deposit_result(accounts, amount, Event::TransferSucceeded) == Ok::<Action, ErrorCode>(
            Action::Finish,
        ),
        balance(
            deposit_accounts(accounts, amount, Event::TransferSucceeded).ledger,
            accounts.user_ata.mint,
        ) == balance(accounts.ledger, accounts.user_ata.mint) + amount,
        other != accounts.user_ata.mint ==> balance(
            deposit_accounts(accounts, amount, Event::TransferSucceeded).ledger,
            other,
        ) == balance(accounts.ledger, other),
{
}

/// The ledger follows the transfer: an operation changes a balance only when it is entered
/// with the report that its transfer went through. Asking for a transfer changes nothing.
pub proof fn only_a_completed_transfer_moves_the_ledger(
    accounts: Accounts,
    amount: u64,
    event: Event,
)
    requires
        event != Event::TransferSucceeded,
    ensures
        deposit_accounts(accounts, amount, event) == accounts,
        withdraw_accounts(accounts, amount, event) == accounts,
{
}

/// Atomicity under external failure: when the transfer is reported to have failed, the
/// operation is refused and the accounts are as they were, for deposits and withdrawals
/// alike.
pub proof fn failed_transfer_changes_nothing(accounts: Accounts, amount: u64)
    ensures
        deposit_result(accounts, amount, Event::TransferFailed) is Err,
        deposit_accounts(accounts, amount, Event::TransferFailed) == accounts,
        deposit_refusal(accounts, amount) is None ==> deposit_result(
            accounts,
            amount,
            Event::TransferFailed,
        ) == Err::<Action, ErrorCode>(ErrorCode::TransferFailed),
        withdraw_result(accounts, amount, Event::TransferFailed) is Err,
        withdraw_accounts(accounts, amount, Event::TransferFailed) == accounts,
        withdraw_refusal(accounts, amount) is None ==> withdraw_result(
            accounts,
            amount,
            Event::TransferFailed,
        ) == Err::<Action, ErrorCode>(ErrorCode::TransferFailed),
{
}

/// An operation that is refused, for whatever reason, changes nothing.
pub proof fn refusal_changes_nothing(accounts: Accounts, amount: u64, event: Event)
    ensures
        deposit_result(accounts, amount, event) is Err ==> deposit_accounts(
            accounts,
            amount,
            event,
        ) == accounts,
        withdraw_result(accounts, amount, event) is Err ==> withdraw_accounts(
            accounts,
            amount,
            event,
        ) == accounts,
{
}

/// The request is a call of `add_token` for `token`.
pub open spec fn adds(request: Request, token: Identity) -> bool {
    request == (Request::AddToken { mint: token })
}

/// One request leaves the whitelist as it was for every token but the one it adds.
pub proof fn step_keeps_whitelist(books: Books, request: Request, token: Identity)
    requires
        !adds(request, token),
    ensures
        step(books, request).whitelist.contains(token) == books.whitelist.contains(token),
{
}

/// The whitelist query is stable: whether a token is whitelisted is the same before and
/// after any history of requests in which that token is not added.
pub proof fn whitelist_query_is_stable(books: Books, history: Seq<Request>, token: Identity)
    requires
        forall|i: int| 0 <= i < history.len() ==> !adds(#[trigger] history[i], token),
    ensures
        run(books, history).whitelist.contains(token) == books.whitelist.contains(token),
    decreases history.len(),
{
    if history.len() > 0 {
        let earlier = history.drop_last();
        assert forall|i: int| 0 <= i < earlier.len() implies !adds(
            #[trigger] earlier[i],
            token,
        ) by {
            assert(earlier[i] == history[i]);
        }
        whitelist_query_is_stable(books, earlier, token);
        step_keeps_whitelist(run(books, earlier), history.last(), token);
    }
}

/// The whitelist never shrinks: a token that is whitelisted stays whitelisted through any
/// history of requests, and adding a token makes it whitelisted.
pub proof fn whitelist_only_grows(books: Books, history: Seq<Request>, token: Identity)
    ensures
        books.whitelist.contains(token) ==> run(books, history).whitelist.contains(token),
        step(books, (Request::AddToken { mint: token })).whitelist.contains(token),
        add_token_result(books.whitelist, token) is Err <==> books.whitelist.contains(token),
    decreases history.len(),
{
    if history.len() > 0 {
        whitelist_only_grows(books, history.drop_last(), token);
    }
}

} // verus!
