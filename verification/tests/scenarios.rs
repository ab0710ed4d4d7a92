use bank::{
    add_token, deposit, initialize_bank, initialize_bank_account, withdraw, Action, AddToken,
    Bank, BankAccount, Deposit, ErrorCode, Event, Identity, InitializeBank,
    InitializeBankAccount, TokenAccount, Withdraw,
};

fn id(seed: u8) -> Identity {
    Identity::new([seed; 32])
}

fn ata(address: u8, mint: u8, amount: u64) -> TokenAccount {
    TokenAccount { address: id(address), mint: id(mint), amount }
}

/// Runs a whole deposit the way a caller does: ask, perform the transfer, report.
fn run_deposit(
    bank: &Bank,
    account: &mut BankAccount,
    mint: u8,
    wallet: u64,
    amount: u64,
    transfer_goes_through: bool,
) -> Result<(), ErrorCode> {
    let mut ctx = Deposit {
        user_ata: ata(50, mint, wallet),
        bank_ata: ata(60, mint, 0),
        user_bank_account: account.clone(),
        bank: bank.clone(),
        user_authority: account.owner,
    };
    let outcome = match deposit(&mut ctx, amount, Event::Begin) {
        Err(e) => Err(e),
        Ok(Action::Finish) => panic!("a deposit cannot be complete before its transfer"),
        Ok(Action::Transfer(order)) => {
            assert_eq!(order.amount, amount);
            let event = if transfer_goes_through {
                Event::TransferSucceeded
            } else {
                Event::TransferFailed
            };
            deposit(&mut ctx, amount, event).map(|action| assert_eq!(action, Action::Finish))
        }
    };
    assert_eq!(&ctx.bank, bank);
    *account = ctx.user_bank_account;
    outcome
}

/// Runs a whole withdrawal the way a caller does: ask, perform the transfer, report.
fn run_withdraw(
    bank: &Bank,
    account: &mut BankAccount,
    mint: u8,
    amount: u64,
    transfer_goes_through: bool,
) -> Result<(), ErrorCode> {
    let mut ctx = Withdraw {
        user_ata: ata(50, mint, 0),
        bank_ata: ata(60, mint, 1_000_000),
        user_bank_account: account.clone(),
        bank: bank.clone(),
        bank_authority: id(80),
    };
    let outcome = match withdraw(&mut ctx, amount, Event::Begin) {
        Err(e) => Err(e),
        Ok(Action::Finish) => panic!("a withdrawal cannot be complete before its transfer"),
        Ok(Action::Transfer(order)) => {
            assert_eq!(order.amount, amount);
            let event = if transfer_goes_through {
                Event::TransferSucceeded
            } else {
                Event::TransferFailed
            };
            withdraw(&mut ctx, amount, event).map(|action| assert_eq!(action, Action::Finish))
        }
    };
    assert_eq!(&ctx.bank, bank);
    *account = ctx.user_bank_account;
    outcome
}

fn bank_listing(tokens: &[u8]) -> Bank {
    let mut setup = InitializeBank { bank: Bank::new(), authority: id(80) };
    assert_eq!(initialize_bank(&mut setup), Ok(()));
    let mut ctx = AddToken { bank: setup.bank, authority: id(80) };
    for t in tokens {
        assert_eq!(add_token(&mut ctx, id(*t)), Ok(()));
    }
    ctx.bank
}

fn account_of(owner: u8) -> BankAccount {
    let mut setup =
        InitializeBankAccount { user_bank_account: BankAccount::new(id(0)), owner: id(owner) };
    assert_eq!(initialize_bank_account(&mut setup), Ok(()));
    setup.user_bank_account
}

#[test]
fn scenario_whitelist_one_token() {
    let bank = bank_listing(&[1]);
    assert!(bank.is_token_whitelisted(id(1)));
    assert!(!bank.is_token_whitelisted(id(2)));
}

#[test]
fn scenario_deposit_then_overdraw_then_withdraw_all() {
    let bank = bank_listing(&[1]);
    let mut account = account_of(70);
    assert_eq!(account.balance_of(id(1)), 0);
    assert_eq!(run_deposit(&bank, &mut account, 1, 100, 100, true), Ok(()));
    assert_eq!(account.balance_of(id(1)), 100);
    assert_eq!(
        run_withdraw(&bank, &mut account, 1, 150, true),
        Err(ErrorCode::InsufficientUserBalance)
    );
    assert_eq!(account.balance_of(id(1)), 100);
    assert_eq!(run_withdraw(&bank, &mut account, 1, 100, true), Ok(()));
    assert_eq!(account.balance_of(id(1)), 0);
}

#[test]
fn scenario_unlisted_deposit_whatever_the_wallet_holds() {
    let bank = bank_listing(&[1]);
    for wallet in [0u64, 10, 50, 51, u64::MAX] {
        let mut account = account_of(70);
        assert_eq!(
            run_deposit(&bank, &mut account, 2, wallet, 50, true),
            Err(ErrorCode::InvalidToken)
        );
        assert_eq!(account, account_of(70));
    }
}

#[test]
fn balance_is_deposits_less_withdrawals() {
    let bank = bank_listing(&[1, 2]);
    let mut account = account_of(70);
    assert_eq!(run_deposit(&bank, &mut account, 1, 1_000, 100, true), Ok(()));
    assert_eq!(run_deposit(&bank, &mut account, 1, 900, 50, true), Ok(()));
    assert_eq!(run_deposit(&bank, &mut account, 2, 10, 7, true), Ok(()));
    assert_eq!(run_withdraw(&bank, &mut account, 1, 30, true), Ok(()));
    assert_eq!(
        run_withdraw(&bank, &mut account, 1, 500, true),
        Err(ErrorCode::InsufficientUserBalance)
    );
    assert_eq!(
        run_deposit(&bank, &mut account, 1, 850, 400, false),
        Err(ErrorCode::TransferFailed)
    );
    assert_eq!(
        run_withdraw(&bank, &mut account, 1, 20, false),
        Err(ErrorCode::TransferFailed)
    );
    assert_eq!(
        run_deposit(&bank, &mut account, 1, 5, 6, true),
        Err(ErrorCode::InsufficientBalance)
    );
    assert_eq!(run_deposit(&bank, &mut account, 3, 5, 5, true), Err(ErrorCode::InvalidToken));
    assert_eq!(run_withdraw(&bank, &mut account, 1, 20, true), Ok(()));
    assert_eq!(account.balance_of(id(1)), 100 + 50 - 30 - 20);
    assert_eq!(account.balance_of(id(2)), 7);
    assert_eq!(account.balance_of(id(3)), 0);
}

#[test]
fn a_failed_transfer_leaves_every_byte_of_the_ledger() {
    let bank = bank_listing(&[1]);
    let mut account = account_of(70);
    assert_eq!(run_deposit(&bank, &mut account, 1, 100, 100, true), Ok(()));
    let before = account.clone();
    assert_eq!(
        run_deposit(&bank, &mut account, 1, 100, 40, false),
        Err(ErrorCode::TransferFailed)
    );
    assert_eq!(account.balances, before.balances);
    assert_eq!(account.owner, before.owner);
    assert_eq!(
        run_withdraw(&bank, &mut account, 1, 40, false),
        Err(ErrorCode::TransferFailed)
    );
    assert_eq!(account.balances, before.balances);
    assert_eq!(account.owner, before.owner);
}

#[test]
fn a_token_added_later_can_be_deposited_from_then_on() {
    let mut ctx = AddToken { bank: bank_listing(&[1]), authority: id(80) };
    let mut account = account_of(70);
    assert_eq!(
        run_deposit(&ctx.bank, &mut account, 2, 100, 10, true),
        Err(ErrorCode::InvalidToken)
    );
    assert!(ctx.bank.is_token_whitelisted(id(1)));
    assert_eq!(add_token(&mut ctx, id(2)), Ok(()));
    assert!(ctx.bank.is_token_whitelisted(id(1)));
    assert_eq!(run_deposit(&ctx.bank, &mut account, 2, 100, 10, true), Ok(()));
    assert_eq!(account.balance_of(id(2)), 10);
    assert_eq!(run_withdraw(&ctx.bank, &mut account, 2, 4, true), Ok(()));
    assert_eq!(account.balance_of(id(2)), 6);
}

#[test]
fn two_owners_do_not_share_a_balance() {
    let bank = bank_listing(&[1]);
    let mut first = account_of(70);
    let mut second = account_of(71);
    assert_eq!(run_deposit(&bank, &mut first, 1, 100, 100, true), Ok(()));
    assert_eq!(
        run_withdraw(&bank, &mut second, 1, 1, true),
        Err(ErrorCode::InsufficientUserBalance)
    );
    assert_eq!(run_deposit(&bank, &mut second, 1, 100, 5, true), Ok(()));
    assert_eq!(first.balance_of(id(1)), 100);
    assert_eq!(second.balance_of(id(1)), 5);
    assert_eq!(first.owner, id(70));
    assert_eq!(second.owner, id(71));
}
