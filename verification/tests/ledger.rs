use pallet_erc20::{
    AccountId, Balance, DefaultDecimals, Error, Event, GenesisConfig, Pallet, DEFAULT_DECIMALS,
    UNLIMITED_ALLOWANCE, ZERO_ACCOUNT,
};

const A: AccountId = 1;
const B: AccountId = 2;
const C: AccountId = 3;
const D: AccountId = 4;
const MAX: Balance = u64::MAX;

fn fixture() -> Pallet {
    GenesisConfig {
        balances: vec![(A, 500_000), (B, 300_000), (C, 1000), (D, 0)],
        name: b"SoraTestToken".to_vec(),
        sym: b"STT".to_vec(),
        decimals: None,
    }
    .build_storage()
    .unwrap()
}

fn sum_of_balances(ledger: &Pallet) -> u128 {
    (0..10u64).map(|who| ledger.get_balance(who) as u128).sum()
}

#[test]
fn transfers_conserve_the_supply() {
    let mut ledger = fixture();
    assert_eq!(sum_of_balances(&ledger), 801_000);
    assert_eq!(ledger.get_total_supply(), 801_000);
    assert_eq!(ledger.transfer(A, D, 500), Ok(()));
    assert_eq!(ledger.transfer(B, A, 300_000), Ok(()));
    assert_eq!(ledger.approve(A, C, 10_000), Ok(()));
    assert_eq!(ledger.transfer_from(C, A, B, 7000), Ok(()));
    assert_eq!(ledger.transfer(D, D, 500), Ok(()));
    assert_eq!(ledger.transfer(C, 9, 1001), Err(Error::TransferAmountExceedsBalance));
    assert_eq!(ledger.transfer_from(C, A, 9, 3001), Err(Error::InsufficientAllowance));
    assert_eq!(sum_of_balances(&ledger), 801_000);
    assert_eq!(ledger.get_total_supply(), 801_000);
    assert_eq!(ledger.get_balance(A), 792_500);
    assert_eq!(ledger.get_balance(B), 7000);
    assert_eq!(ledger.get_balance(C), 1000);
    assert_eq!(ledger.get_balance(D), 500);
}

#[test]
fn mint_then_burn_restores_balance_and_supply() {
    let mut ledger = fixture();
    assert_eq!(ledger._mint(C, 777), Ok(()));
    assert_eq!(ledger.get_balance(C), 1777);
    assert_eq!(ledger.get_total_supply(), 801_777);
    assert_eq!(ledger._burn(C, 777), Ok(()));
    assert_eq!(ledger.get_balance(C), 1000);
    assert_eq!(ledger.get_total_supply(), 801_000);
    assert_eq!(
        ledger.events(),
        &vec![Event::Transfer(0, C, 777), Event::Transfer(C, 0, 777)]
    );
}

#[test]
fn mint_to_a_new_account_then_burn_it_all() {
    let mut ledger = fixture();
    assert_eq!(ledger._mint(77, 5), Ok(()));
    assert_eq!(ledger._burn(77, 5), Ok(()));
    assert_eq!(ledger.get_balance(77), 0);
    assert_eq!(ledger.get_total_supply(), 801_000);
}

#[test]
fn unlimited_allowance_is_never_spent() {
    let mut ledger = fixture();
    assert_eq!(ledger.approve(A, C, MAX), Ok(()));
    let reports = ledger.take_events();
    assert_eq!(reports, vec![Event::Approval(A, C, MAX)]);
    for _ in 0..3 {
        assert_eq!(ledger._spend_allowance(A, C, 400_000), Ok(()));
        assert_eq!(ledger.get_allowance(A, C), MAX);
    }
    assert_eq!(ledger._spend_allowance(A, C, MAX), Ok(()));
    assert_eq!(ledger.get_allowance(A, C), MAX);
    assert!(ledger.events().is_empty());
    assert_eq!(ledger.transfer_from(C, A, D, 100), Ok(()));
    assert_eq!(ledger.transfer_from(C, A, D, 200), Ok(()));
    assert_eq!(ledger.get_allowance(A, C), MAX);
    assert_eq!(ledger.get_balance(D), 300);
    assert_eq!(
        ledger.events(),
        &vec![Event::Transfer(A, D, 100), Event::Transfer(A, D, 200)]
    );
}

#[test]
fn approve_overwrites_whatever_was_there() {
    let mut ledger = fixture();
    assert_eq!(ledger.approve(A, B, 123), Ok(()));
    assert_eq!(ledger.approve(A, B, 45), Ok(()));
    assert_eq!(ledger.get_allowance(A, B), 45);
    assert_eq!(ledger.approve(A, B, MAX), Ok(()));
    assert_eq!(ledger.approve(A, B, 0), Ok(()));
    assert_eq!(ledger.get_allowance(A, B), 0);
    assert_eq!(ledger._approve(A, B, 9), Ok(()));
    assert_eq!(ledger.get_allowance(A, B), 9);
}

#[test]
fn allowances_are_kept_per_owner_and_spender() {
    let mut ledger = fixture();
    assert_eq!(ledger.approve(A, B, 10), Ok(()));
    assert_eq!(ledger.approve(B, A, 20), Ok(()));
    assert_eq!(ledger.approve(0, MAX, 30), Ok(()));
    assert_eq!(ledger.approve(MAX, 0, 40), Ok(()));
    assert_eq!(ledger.approve(MAX, MAX, 50), Ok(()));
    assert_eq!(ledger.get_allowance(A, B), 10);
    assert_eq!(ledger.get_allowance(B, A), 20);
    assert_eq!(ledger.get_allowance(0, MAX), 30);
    assert_eq!(ledger.get_allowance(MAX, 0), 40);
    assert_eq!(ledger.get_allowance(MAX, MAX), 50);
    assert_eq!(ledger.get_allowance(A, A), 0);
    assert_eq!(ledger.get_allowance(0, 0), 0);
}

#[test]
fn failed_transfer_changes_nothing() {
    let mut ledger = fixture();
    let before = ledger.clone();
    assert_eq!(ledger.transfer(C, D, 1001), Err(Error::TransferAmountExceedsBalance));
    assert_eq!(ledger, before);
    assert_eq!(ledger._transfer(D, A, 1), Err(Error::TransferAmountExceedsBalance));
    assert_eq!(ledger, before);
    assert_eq!(ledger.get_balance(C), 1000);
    assert_eq!(ledger.get_balance(D), 0);
    assert!(ledger.events().is_empty());
}

#[test]
fn transfer_to_oneself_changes_no_balance() {
    let mut ledger = fixture();
    assert_eq!(ledger.transfer(A, A, 500_000), Ok(()));
    assert_eq!(ledger.get_balance(A), 500_000);
    assert_eq!(ledger.get_total_supply(), 801_000);
    assert_eq!(ledger.events(), &vec![Event::Transfer(A, A, 500_000)]);
    assert_eq!(ledger.transfer(A, A, 500_001), Err(Error::TransferAmountExceedsBalance));
}

#[test]
fn transfer_to_oneself_near_the_top_of_the_range() {
    let mut ledger = GenesisConfig {
        balances: vec![(A, MAX)],
        name: Vec::new(),
        sym: Vec::new(),
        decimals: None,
    }
    .build_storage()
    .unwrap();
    assert_eq!(ledger.transfer(A, A, MAX), Ok(()));
    assert_eq!(ledger.get_balance(A), MAX);
    assert_eq!(ledger.transfer(A, B, MAX), Ok(()));
    assert_eq!(ledger.get_balance(A), 0);
    assert_eq!(ledger.get_balance(B), MAX);
}

#[test]
fn transfer_of_nothing_is_granted_and_reported() {
    let mut ledger = fixture();
    assert_eq!(ledger.transfer(D, 9, 0), Ok(()));
    assert_eq!(ledger.get_balance(D), 0);
    assert_eq!(ledger.get_balance(9), 0);
    assert_eq!(ledger.events(), &vec![Event::Transfer(D, 9, 0)]);
}

#[test]
fn transfer_from_spends_the_allowance_and_reports_both() {
    let mut ledger = fixture();
    assert_eq!(ledger.increase_allowance(A, C, 5000), Ok(()));
    assert_eq!(ledger.transfer_from(C, A, D, 3000), Ok(()));
    assert_eq!(ledger.get_balance(A), 497_000);
    assert_eq!(ledger.get_balance(D), 3000);
    assert_eq!(ledger.get_allowance(A, C), 2000);
    assert_eq!(
        ledger.events(),
        &vec![
            Event::Approval(A, C, 5000),
            Event::Approval(A, C, 2000),
            Event::Transfer(A, D, 3000),
        ]
    );
}

#[test]
fn transfer_from_refused_by_the_balance_keeps_the_allowance() {
    let mut ledger = fixture();
    assert_eq!(ledger.approve(C, A, 5000), Ok(()));
    let before = ledger.clone();
    assert_eq!(ledger.transfer_from(A, C, D, 1001), Err(Error::TransferAmountExceedsBalance));
    assert_eq!(ledger, before);
    assert_eq!(ledger.get_allowance(C, A), 5000);
    assert_eq!(ledger.get_balance(C), 1000);
    assert_eq!(ledger.events(), &vec![Event::Approval(C, A, 5000)]);
}

#[test]
fn transfer_from_reports_the_allowance_before_the_balance() {
    let mut ledger = fixture();
    assert_eq!(ledger.approve(C, A, 10), Ok(()));
    assert_eq!(ledger.transfer_from(A, C, D, 2000), Err(Error::InsufficientAllowance));
    assert_eq!(ledger.transfer_from(B, C, D, 1), Err(Error::InsufficientAllowance));
}

#[test]
fn spend_allowance_takes_the_amount_off() {
    let mut ledger = fixture();
    assert_eq!(ledger.approve(A, B, 100), Ok(()));
    assert_eq!(ledger._spend_allowance(A, B, 30), Ok(()));
    assert_eq!(ledger.get_allowance(A, B), 70);
    assert_eq!(ledger._spend_allowance(A, B, 0), Ok(()));
    assert_eq!(ledger.get_allowance(A, B), 70);
    let before = ledger.clone();
    assert_eq!(ledger._spend_allowance(A, B, 71), Err(Error::InsufficientAllowance));
    assert_eq!(ledger, before);
    assert_eq!(ledger._spend_allowance(A, B, 70), Ok(()));
    assert_eq!(ledger.get_allowance(A, B), 0);
    assert_eq!(
        ledger.events(),
        &vec![
            Event::Approval(A, B, 100),
            Event::Approval(A, B, 70),
            Event::Approval(A, B, 70),
            Event::Approval(A, B, 0),
        ]
    );
}

#[test]
fn spending_down_from_just_below_unlimited() {
    let mut ledger = fixture();
    assert_eq!(ledger.approve(A, B, MAX - 1), Ok(()));
    assert_eq!(ledger._spend_allowance(A, B, 1), Ok(()));
    assert_eq!(ledger.get_allowance(A, B), MAX - 2);
}

#[test]
fn increase_allowance_refuses_to_overflow() {
    let mut ledger = fixture();
    assert_eq!(ledger.increase_allowance(A, B, MAX - 1), Ok(()));
    let before = ledger.clone();
    assert_eq!(ledger.increase_allowance(A, B, 2), Err(Error::BalanceOverflow));
    assert_eq!(ledger, before);
    assert_eq!(ledger.get_allowance(A, B), MAX - 1);
    assert_eq!(ledger.increase_allowance(A, B, 1), Ok(()));
    assert_eq!(ledger.get_allowance(A, B), MAX);
}

#[test]
fn decrease_allowance_down_to_zero_and_no_further() {
    let mut ledger = fixture();
    assert_eq!(ledger.decrease_allowance(A, B, 0), Ok(()));
    assert_eq!(ledger.decrease_allowance(A, B, 1), Err(Error::DecreasedAllowanceBelowZero));
    assert_eq!(ledger.increase_allowance(A, B, 8), Ok(()));
    assert_eq!(ledger.decrease_allowance(A, B, 8), Ok(()));
    assert_eq!(ledger.get_allowance(A, B), 0);
}

#[test]
fn mint_refuses_to_overflow_the_supply() {
    let mut ledger = fixture();
    let before = ledger.clone();
    assert_eq!(ledger._mint(D, MAX - 801_000 + 1), Err(Error::BalanceOverflow));
    assert_eq!(ledger, before);
    assert_eq!(ledger._mint(D, MAX - 801_000), Ok(()));
    assert_eq!(ledger.get_total_supply(), MAX);
    assert_eq!(ledger.get_balance(D), MAX - 801_000);
    assert_eq!(ledger._mint(A, 1), Err(Error::BalanceOverflow));
    assert_eq!(ledger._mint(A, 0), Ok(()));
}

#[test]
fn burn_takes_off_balance_and_supply() {
    let mut ledger = fixture();
    assert_eq!(ledger._burn(C, 1001), Err(Error::BurnAmountExceedsBalance));
    assert_eq!(ledger.get_total_supply(), 801_000);
    assert_eq!(ledger._burn(C, 1000), Ok(()));
    assert_eq!(ledger.get_balance(C), 0);
    assert_eq!(ledger.get_total_supply(), 800_000);
    assert_eq!(ledger.events(), &vec![Event::Transfer(C, 0, 1000)]);
    assert_eq!(ledger._burn(C, 1), Err(Error::BurnAmountExceedsBalance));
}

#[test]
fn four_accounts_scenario() {
    let mut ledger = GenesisConfig {
        balances: vec![(A, 500_000), (B, 300_000), (C, 1000), (D, 0)],
        name: Vec::new(),
        sym: Vec::new(),
        decimals: None,
    }
    .build_storage()
    .unwrap();

    assert_eq!(ledger.transfer(A, D, 500), Ok(()));
    assert_eq!(ledger.get_balance(A), 499_500);
    assert_eq!(ledger.get_balance(D), 500);
    assert_eq!(ledger.get_total_supply(), 801_000);
    assert_eq!(ledger.take_events(), vec![Event::Transfer(A, D, 500)]);

    assert_eq!(ledger.increase_allowance(A, C, 5000), Ok(()));
    assert_eq!(ledger.decrease_allowance(A, C, 1000), Ok(()));
    assert_eq!(ledger.get_allowance(A, C), 4000);
    assert_eq!(
        ledger.take_events(),
        vec![Event::Approval(A, C, 5000), Event::Approval(A, C, 4000)]
    );

    assert_eq!(ledger.approve(A, C, 5000), Ok(()));
    let d_before = ledger.get_balance(D);
    assert_eq!(ledger.transfer_from(C, A, D, 3000), Ok(()));
    assert_eq!(ledger.get_balance(D), d_before + 3000);
    assert_eq!(ledger.get_allowance(A, C), 2000);

    let before = ledger.clone();
    assert_eq!(ledger.transfer_from(C, A, D, 2001), Err(Error::InsufficientAllowance));
    assert_eq!(ledger, before);

    let supply = ledger.get_total_supply();
    let c_balance = ledger.get_balance(C);
    assert_eq!(ledger._burn(C, c_balance + 1), Err(Error::BurnAmountExceedsBalance));
    assert_eq!(ledger.get_total_supply(), supply);
}

#[test]
fn new_ledger_is_empty() {
    let ledger = Pallet::new();
    assert_eq!(ledger.get_total_supply(), 0);
    assert_eq!(ledger.get_balance(A), 0);
    assert_eq!(ledger.get_allowance(A, B), 0);
    assert_eq!(ledger.get_name(), Vec::<u8>::new());
    assert_eq!(ledger.get_symbol(), Vec::<u8>::new());
    assert_eq!(ledger.get_decimals(), 18);
    assert!(ledger.events().is_empty());
}

#[test]
fn default_decimals_are_eighteen() {
    assert_eq!(DEFAULT_DECIMALS, 18);
    assert_eq!(DefaultDecimals(), 18);
}

#[test]
fn genesis_names_its_decimals() {
    let ledger = GenesisConfig {
        balances: Vec::new(),
        name: b"Coin".to_vec(),
        sym: b"C".to_vec(),
        decimals: Some(6),
    }
    .build_storage()
    .unwrap();
    assert_eq!(ledger.get_decimals(), 6);
    assert_eq!(ledger.get_name(), b"Coin".to_vec());
    assert_eq!(ledger.get_symbol(), b"C".to_vec());
    assert_eq!(ledger.get_total_supply(), 0);
}

#[test]
fn default_genesis_builds_the_empty_ledger() {
    let config = GenesisConfig::default();
    assert!(config.balances.is_empty());
    assert!(config.name.is_empty());
    assert!(config.sym.is_empty());
    assert_eq!(config.decimals, None);
    assert_eq!(config.total_supply(), Some(0));
    assert_eq!(config.build(), Pallet::new());
}

#[test]
fn genesis_adds_up_an_account_listed_twice() {
    let config = GenesisConfig {
        balances: vec![(A, 5), (B, 7), (A, 11)],
        name: Vec::new(),
        sym: Vec::new(),
        decimals: None,
    };
    assert_eq!(config.total_supply(), Some(23));
    let ledger = config.build();
    assert_eq!(ledger.get_balance(A), 16);
    assert_eq!(ledger.get_balance(B), 7);
    assert_eq!(ledger.get_total_supply(), 23);
    assert!(ledger.events().is_empty());
}

#[test]
fn genesis_refuses_a_supply_out_of_range() {
    let config = GenesisConfig {
        balances: vec![(A, MAX), (B, 1)],
        name: Vec::new(),
        sym: Vec::new(),
        decimals: None,
    };
    assert_eq!(config.total_supply(), None);
    assert_eq!(
        config.build_storage().err(),
        Some(String::from("Genesis build failed: Total supply overflow"))
    );
    let mut storage = fixture();
    let before = storage.clone();
    assert_eq!(
        config.assimilate_storage(&mut storage),
        Err(String::from("Genesis build failed: Total supply overflow"))
    );
    assert_eq!(storage, before);
}

#[test]
fn genesis_at_the_top_of_the_range() {
    let config = GenesisConfig {
        balances: vec![(A, MAX - 1), (B, 1)],
        name: Vec::new(),
        sym: Vec::new(),
        decimals: None,
    };
    assert_eq!(config.total_supply(), Some(MAX));
    let ledger = config.build_storage().unwrap();
    assert_eq!(ledger.get_total_supply(), MAX);
    assert_eq!(ledger.get_balance(A), MAX - 1);
}

#[test]
fn assimilate_replaces_what_was_there() {
    let mut storage = fixture();
    assert_eq!(storage.approve(A, B, 5), Ok(()));
    let config = GenesisConfig {
        balances: vec![(9, 42)],
        name: b"Other".to_vec(),
        sym: b"O".to_vec(),
        decimals: Some(2),
    };
    assert_eq!(config.assimilate_storage(&mut storage), Ok(()));
    assert_eq!(storage.get_total_supply(), 42);
    assert_eq!(storage.get_balance(9), 42);
    assert_eq!(storage.get_balance(A), 0);
    assert_eq!(storage.get_allowance(A, B), 0);
    assert_eq!(storage.get_name(), b"Other".to_vec());
    assert_eq!(storage.get_decimals(), 2);
    assert!(storage.events().is_empty());
}

#[test]
fn take_events_hands_out_and_forgets() {
    let mut ledger = fixture();
    assert_eq!(ledger.transfer(A, B, 1), Ok(()));
    assert_eq!(ledger.approve(A, B, 2), Ok(()));
    let balance = ledger.get_balance(A);
    assert_eq!(
        ledger.take_events(),
        vec![Event::Transfer(A, B, 1), Event::Approval(A, B, 2)]
    );
    assert!(ledger.events().is_empty());
    assert!(ledger.take_events().is_empty());
    assert_eq!(ledger.get_balance(A), balance);
    assert_eq!(ledger.get_allowance(A, B), 2);
}

#[test]
fn unlimited_is_the_largest_amount_and_nobody_is_zero() {
    assert_eq!(UNLIMITED_ALLOWANCE, u64::MAX);
    assert_eq!(ZERO_ACCOUNT, 0);
    let mut ledger = fixture();
    assert_eq!(ledger._mint(A, 1), Ok(()));
    assert_eq!(ledger.events(), &vec![Event::Transfer(ZERO_ACCOUNT, A, 1)]);
    assert_eq!(ledger.approve(A, B, UNLIMITED_ALLOWANCE), Ok(()));
    assert_eq!(ledger.transfer_from(B, A, C, 10), Ok(()));
    assert_eq!(ledger.get_allowance(A, B), UNLIMITED_ALLOWANCE);
}
