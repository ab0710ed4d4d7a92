use bank::{
    add_token, initialize_bank, initialize_bank_account, AddToken, Bank, BankAccount, ErrorCode,
    Identity, InitializeBank, InitializeBankAccount,
};

fn id(seed: u8) -> Identity {
    Identity::new([seed; 32])
}

#[test]
fn new_registry_accepts_nothing() {
    let bank = Bank::new();
    assert!(bank.whitelist_tokens.is_empty());
    assert!(!bank.is_token_whitelisted(id(1)));
    assert!(!bank.is_token_whitelisted(id(0)));
}

#[test]
fn registry_empty_then_one_token() {
    let mut ctx = InitializeBank { bank: Bank::new(), authority: id(8) };
    assert_eq!(initialize_bank(&mut ctx), Ok(()));
    let mut ctx = AddToken { bank: ctx.bank, authority: id(8) };
    assert_eq!(add_token(&mut ctx, id(1)), Ok(()));
    assert!(ctx.bank.is_token_whitelisted(id(1)));
    assert!(!ctx.bank.is_token_whitelisted(id(2)));
}

#[test]
fn the_registry_method_lists_a_token_once() {
    let mut bank = Bank::new();
    bank.add_token(id(1));
    bank.add_token(id(2));
    bank.add_token(id(1));
    assert_eq!(bank.whitelist_tokens, vec![id(1), id(2)]);
    assert!(bank.is_token_whitelisted(id(1)));
    assert!(bank.is_token_whitelisted(id(2)));
    assert!(!bank.is_token_whitelisted(id(3)));
}

#[test]
fn add_token_refuses_a_listed_token() {
    let mut ctx = AddToken { bank: Bank::new(), authority: id(8) };
    assert_eq!(add_token(&mut ctx, id(1)), Ok(()));
    assert_eq!(add_token(&mut ctx, id(2)), Ok(()));
    let before = ctx.clone();
    assert_eq!(add_token(&mut ctx, id(1)), Err(ErrorCode::TokenAlreadyWhitelisted));
    assert_eq!(ctx, before);
    assert_eq!(add_token(&mut ctx, id(2)), Err(ErrorCode::TokenAlreadyWhitelisted));
    assert_eq!(ctx, before);
    assert_eq!(ctx.bank.whitelist_tokens, vec![id(1), id(2)]);
}

#[test]
fn add_token_keeps_the_other_tokens() {
    let mut ctx = AddToken { bank: Bank::new(), authority: id(8) };
    for seed in 1..=10u8 {
        assert_eq!(add_token(&mut ctx, id(seed)), Ok(()));
        for other in 1..=10u8 {
            assert_eq!(ctx.bank.is_token_whitelisted(id(other)), other <= seed);
        }
    }
    assert_eq!(ctx.authority, id(8));
}

#[test]
fn the_whitelist_query_gives_the_same_answer_twice() {
    let mut bank = Bank::new();
    bank.add_token(id(1));
    for _ in 0..3 {
        assert!(bank.is_token_whitelisted(id(1)));
        assert!(!bank.is_token_whitelisted(id(2)));
    }
    assert_eq!(bank.whitelist_tokens, vec![id(1)]);
}

#[test]
fn initialize_bank_leaves_an_empty_registry() {
    let mut ctx = InitializeBank {
        bank: Bank { whitelist_tokens: vec![id(1), id(2)] },
        authority: id(8),
    };
    assert_eq!(initialize_bank(&mut ctx), Ok(()));
    assert!(ctx.bank.whitelist_tokens.is_empty());
    assert!(!ctx.bank.is_token_whitelisted(id(1)));
    assert_eq!(ctx.authority, id(8));
}

#[test]
fn initialize_bank_account_binds_the_owner() {
    let mut ctx = InitializeBankAccount {
        user_bank_account: BankAccount { owner: id(0), balances: vec![(id(1), 5)] },
        owner: id(9),
    };
    assert_eq!(initialize_bank_account(&mut ctx), Ok(()));
    assert_eq!(ctx.user_bank_account.owner, id(9));
    assert!(ctx.user_bank_account.balances.is_empty());
    assert_eq!(ctx.user_bank_account.balance_of(id(1)), 0);
    assert_eq!(ctx.owner, id(9));
}
