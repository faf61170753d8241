use std::cell::RefCell;

use token_ledger::Address;
use token_ledger::Authenticator;
use token_ledger::Error;
use token_ledger::Ledger;
use token_ledger::TokenContract;

/// Says yes for every account, and remembers which accounts it was asked about.
struct AllAuths {
    asked: RefCell<Vec<Address>>,
}

impl AllAuths {
    fn new() -> AllAuths {
        AllAuths { asked: RefCell::new(Vec::new()) }
    }

    /// The accounts asked about since the last call, oldest first.
    fn auths(&self) -> Vec<Address> {
        self.asked.replace(Vec::new())
    }
}

impl Authenticator for AllAuths {
    fn authorizes(&self, _account: Address) -> bool {
        true
    }

    fn is_authorized(&self, account: &Address) -> bool {
        self.asked.borrow_mut().push(*account);
        true
    }
}

fn create_token(admin: &Address, decimal: u32, name: &str, symbol: &str) -> Ledger {
    let mut ledger = Ledger::new(0);
    match TokenContract::initialize(
        &mut ledger,
        *admin,
        decimal,
        name.to_string(),
        symbol.to_string(),
    ) {
        Ok(()) => ledger,
        Err(error) => panic!("{}", error.message()),
    }
}

#[test]
fn test_1() {
    let auth = AllAuths::new();

    let admin1 = Address::new(1);
    let admin2 = Address::new(2);
    let user1 = Address::new(3);
    let user2 = Address::new(4);
    let user3 = Address::new(5);

    let mut token = create_token(&admin1, 18, "Osi Token", "OSI");

    let decimal = TokenContract::decimals(&token);
    assert_eq!(decimal, 18);
    let name = TokenContract::name(&token);
    assert_eq!(name, String::from("Osi Token"));
    let symbol = TokenContract::symbol(&token);
    assert_eq!(symbol, String::from("OSI"));

    // Admin 1 mints 1000 tokens to User 1
    assert_eq!(TokenContract::mint(&mut token, &auth, user1, 1000), Ok(()));
    assert_eq!(auth.auths(), vec![admin1]);
    assert_eq!(TokenContract::balance(&mut token, user1), 1000);

    // User 2 approves 500 tokens to User 3
    assert_eq!(TokenContract::approve(&mut token, &auth, user2, user3, 500, 200), Ok(()));
    assert_eq!(auth.auths(), vec![user2]);
    assert_eq!(TokenContract::allowance(&mut token, user2, user3), 500);

    // User 1 transfers 600 tokens to User 2
    assert_eq!(TokenContract::transfer(&mut token, &auth, user1, user2, 600), Ok(()));
    assert_eq!(auth.auths(), vec![user1]);
    assert_eq!(TokenContract::balance(&mut token, user1), 400);
    assert_eq!(TokenContract::balance(&mut token, user2), 600);

    // Using User 2's approval, User 3 transfers 400 tokens from User 2 to User 1
    assert_eq!(TokenContract::transfer_from(&mut token, &auth, user3, user2, user1, 400), Ok(()));
    assert_eq!(auth.auths(), vec![user3]);
    assert_eq!(TokenContract::balance(&mut token, user1), 800);
    assert_eq!(TokenContract::balance(&mut token, user2), 200);

    // User 1 transfers 300 tokens to User 3
    assert_eq!(TokenContract::transfer(&mut token, &auth, user1, user3, 300), Ok(()));
    assert_eq!(auth.auths(), vec![user1]);
    assert_eq!(TokenContract::balance(&mut token, user1), 500);
    assert_eq!(TokenContract::balance(&mut token, user3), 300);

    // Admin 1 sets Admin 2 as the new admin
    assert_eq!(TokenContract::set_admin(&mut token, &auth, admin2), Ok(()));
    assert_eq!(auth.auths(), vec![admin1]);

    // User 2 approves 500 tokens to User 3
    assert_eq!(TokenContract::approve(&mut token, &auth, user2, user3, 500, 200), Ok(()));
    assert_eq!(auth.auths(), vec![user2]);
    assert_eq!(TokenContract::allowance(&mut token, user2, user3), 500);

    // User 2 removes approval for User 3
    assert_eq!(TokenContract::approve(&mut token, &auth, user2, user3, 0, 200), Ok(()));
    assert_eq!(auth.auths(), vec![user2]);
    assert_eq!(TokenContract::allowance(&mut token, user2, user3), 0);
}

#[test]
fn test_2() {
    let auth = AllAuths::new();

    let admin = Address::new(1);
    let user1 = Address::new(2);
    let user2 = Address::new(3);

    let mut token = create_token(&admin, 18, "Osi Token", "OSI");

    // Admin mints 1000 tokens to User 1
    assert_eq!(TokenContract::mint(&mut token, &auth, user1, 1000), Ok(()));
    assert_eq!(auth.auths(), vec![admin]);
    assert_eq!(TokenContract::balance(&mut token, user1), 1000);

    // User 1 approves 500 tokens to User 2
    assert_eq!(TokenContract::approve(&mut token, &auth, user1, user2, 500, 200), Ok(()));
    assert_eq!(auth.auths(), vec![user1]);
    assert_eq!(TokenContract::allowance(&mut token, user1, user2), 500);

    // Using User 1's approval, User 2 burns 500 tokens from User 1
    assert_eq!(TokenContract::burn_from(&mut token, &auth, user2, user1, 500), Ok(()));
    assert_eq!(auth.auths(), vec![user2]);
    assert_eq!(TokenContract::allowance(&mut token, user1, user2), 0);
    assert_eq!(TokenContract::balance(&mut token, user1), 500);
    assert_eq!(TokenContract::balance(&mut token, user2), 0);

    // User 1 burns 500 tokens
    assert_eq!(TokenContract::burn(&mut token, &auth, user1, 500), Ok(()));
    assert_eq!(auth.auths(), vec![user1]);
    assert_eq!(TokenContract::balance(&mut token, user1), 0);
    assert_eq!(TokenContract::balance(&mut token, user2), 0);
}

#[test]
#[should_panic(expected = "Insufficient balance")]
fn test_transfer_insufficient_balance() {
    let auth = AllAuths::new();

    let admin = Address::new(1);
    let user1 = Address::new(2);
    let user2 = Address::new(3);

    let mut token = create_token(&admin, 18, "Osi Token", "OSI");

    assert_eq!(TokenContract::mint(&mut token, &auth, user1, 1000), Ok(()));
    assert_eq!(TokenContract::balance(&mut token, user1), 1000);

    // User 1 transfers 1001 tokens to User 2
    match TokenContract::transfer(&mut token, &auth, user1, user2, 1001) {
        Ok(()) => {}
        Err(error) => {
            assert_eq!(error, Error::InsufficientBalance);
            panic!("{}", error.message());
        }
    }
}

#[test]
#[should_panic(expected = "Insufficient allowance")]
fn test_transfer_from_insufficient_allowance() {
    let auth = AllAuths::new();

    let admin = Address::new(1);
    let user1 = Address::new(2);
    let user2 = Address::new(3);
    let user3 = Address::new(4);

    let mut token = create_token(&admin, 18, "Osi Token", "OSI");

    assert_eq!(TokenContract::mint(&mut token, &auth, user1, 1000), Ok(()));
    assert_eq!(TokenContract::balance(&mut token, user1), 1000);

    // User 1 approves 100 tokens to User 3
    assert_eq!(TokenContract::approve(&mut token, &auth, user1, user3, 100, 200), Ok(()));
    assert_eq!(TokenContract::allowance(&mut token, user1, user3), 100);

    // Using User 1's approval, User 3 transfers 101 tokens from User 1 to User 2
    match TokenContract::transfer_from(&mut token, &auth, user3, user1, user2, 101) {
        Ok(()) => {}
        Err(error) => {
            assert_eq!(error, Error::InsufficientAllowance);
            panic!("{}", error.message());
        }
    }
}

#[test]
#[should_panic(expected = "Decimal must not be greater than 18")]
fn test_decimal_is_over_eighteen() {
    let admin = Address::new(1);

    let _ = create_token(&admin, 19, "Osi Token", "OSI");
}

#[test]
#[should_panic(expected = "Already initialized")]
fn test_initialize_already_initialized() {
    let admin = Address::new(1);

    let mut token = create_token(&admin, 18, "Osi Token", "OSI");

    match TokenContract::initialize(
        &mut token,
        admin,
        18,
        "Osi Token 2".to_string(),
        "OSI2".to_string(),
    ) {
        Ok(()) => {}
        Err(error) => {
            assert_eq!(error, Error::AlreadyInitialized);
            panic!("{}", error.message());
        }
    }
}

#[test]
fn test_zero_allowance() {
    // A transfer of nothing on an allowance that was never granted stores no allowance.
    let auth = AllAuths::new();

    let admin = Address::new(1);
    let spender = Address::new(2);
    let from = Address::new(3);

    let mut token = create_token(&admin, 18, "Osi Token", "OSI");

    assert_eq!(TokenContract::transfer_from(&mut token, &auth, spender, from, spender, 0), Ok(()));
    assert!(TokenContract::test_get_allowance(&token, from, spender).is_none());
}
