use dao::address::Address;
use dao::error::TokenError;
use dao::token::{check_non_negative, TokenContract};

fn addr(s: &str) -> Address {
    Address::new(s.to_string())
}

fn create_token(admin: &Address) -> TokenContract {
    let mut token = TokenContract::new();
    token.initialize(admin.clone(), "MyToken".to_string(), "MTK".to_string()).unwrap();
    token
}

#[test]
fn initialization() {
    let admin = addr("GADMIN");
    let token = create_token(&admin);
    assert_eq!(token.admin, Some(admin));
}

#[test]
fn already_initialization() {
    let admin = addr("GADMIN");
    let mut token = create_token(&admin);
    let r = token.initialize(admin.clone(), "Test".to_string(), "TES".to_string());
    assert_eq!(r, Err(TokenError::AlreadyInitialized));
    assert_eq!(token.name(), Ok("MyToken".to_string()));
}

#[test]
fn meta_data() {
    let admin = addr("GADMIN");
    let token = create_token(&admin);
    let name = token.name();
    let symbol = token.symbol();
    assert_eq!(name, Ok("MyToken".to_string()));
    assert_eq!(symbol, Ok("MTK".to_string()));
}

#[test]
fn mint() {
    let admin = addr("GADMIN");
    let user = addr("GUSER");
    let mut token = create_token(&admin);
    assert_eq!(token.balance(&user), Ok(0_i128));
    token.mint(user.clone(), 100_i128).unwrap();
    assert_eq!(token.balance(&user), Ok(100_i128));
}

#[test]
fn burn() {
    let admin = addr("GADMIN");
    let from = addr("GFROM");
    let mut token = create_token(&admin);
    token.mint(from.clone(), 100_i128).unwrap();
    assert_eq!(token.balance(&from), Ok(100_i128));
    token.burn(&from, 60_i128).unwrap();
    assert_eq!(token.balance(&from), Ok(40_i128));
}

#[test]
fn burn_insufficient_balance() {
    let admin = addr("GADMIN");
    let from = addr("GFROM");
    let mut token = create_token(&admin);
    token.mint(from.clone(), 100_i128).unwrap();
    assert_eq!(token.balance(&from), Ok(100_i128));
    assert_eq!(token.burn(&from, 300_i128), Err(TokenError::InsufficientBalance));
    assert_eq!(token.balance(&from), Ok(100_i128));
}

#[test]
fn mint_sets_the_balance() {
    let admin = addr("GADMIN");
    let user = addr("GUSER");
    let other = addr("GOTHER");
    let mut token = create_token(&admin);
    token.mint(user.clone(), 100_i128).unwrap();
    token.mint(other.clone(), 7_i128).unwrap();
    token.mint(user.clone(), 3_i128).unwrap();
    assert_eq!(token.balance(&user), Ok(3_i128));
    assert_eq!(token.balance(&other), Ok(7_i128));
}

#[test]
fn negative_amounts_are_refused() {
    let admin = addr("GADMIN");
    let user = addr("GUSER");
    let mut token = create_token(&admin);
    assert_eq!(token.mint(user.clone(), -1_i128), Err(TokenError::NegativeAmount));
    assert_eq!(token.burn(&user, -1_i128), Err(TokenError::NegativeAmount));
    assert_eq!(check_non_negative(-5), Err(TokenError::NegativeAmount));
    assert_eq!(check_non_negative(0), Ok(()));
}

#[test]
fn uninitialized_ledger_refuses() {
    let user = addr("GUSER");
    let mut token = TokenContract::new();
    assert_eq!(token.balance(&user), Err(TokenError::NotInitialized));
    assert_eq!(token.mint(user.clone(), 1), Err(TokenError::NotInitialized));
    assert_eq!(token.burn(&user, 1), Err(TokenError::NotInitialized));
    assert_eq!(token.name(), Err(TokenError::NotInitialized));
    assert_eq!(token.symbol(), Err(TokenError::NotInitialized));
}

#[test]
fn burn_to_zero() {
    let admin = addr("GADMIN");
    let from = addr("GFROM");
    let mut token = create_token(&admin);
    token.mint(from.clone(), 5).unwrap();
    assert_eq!(token.burn(&from, 5), Ok(()));
    assert_eq!(token.balance(&from), Ok(0));
}
