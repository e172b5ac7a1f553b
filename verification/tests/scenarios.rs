use anchor_lang::prelude::Pubkey;
use galno_escrow::deriver::{config_label, vault_label};
use galno_escrow::{
    deposit, derive_address, initialize, withdraw, AccountData, Address, Config, Deposit,
    DepositRecord, GalnoError, Initialize, Ledger, Vault, Withdraw,
};

fn addr(n: u8) -> Address {
    Address::new([n; 32])
}

fn program() -> Address {
    addr(7)
}

fn authority() -> Address {
    addr(1)
}

fn user() -> Address {
    addr(2)
}

fn recipient() -> Address {
    addr(3)
}

fn config_at() -> Address {
    derive_address(b"config", &program()).unwrap().0
}

fn vault_at() -> (Address, u8) {
    derive_address(b"vault", &program()).unwrap()
}

fn take_out(caller: Address) -> Withdraw {
    let (vault, vault_bump) = vault_at();
    Withdraw { authority: caller, config: config_at(), vault, recipient: recipient(), vault_bump }
}

/// A ledger with the config record made for `authority()`, a user funded
/// with 500 and 100 of it deposited.
fn ready() -> Ledger {
    let mut ledger = Ledger::new();
    assert_eq!(ledger.fund(&user(), 500), Ok(()));
    let init = Initialize { config: config_at(), authority: authority() };
    assert_eq!(initialize(&mut ledger, &program(), &init), Ok(()));
    let put_in = Deposit { user: user(), vault: vault_at().0 };
    assert_eq!(
        deposit(&mut ledger, &program(), &put_in, 100),
        Ok(DepositRecord { actor: user(), amount: 100 })
    );
    assert_eq!(DepositRecord { actor: user(), amount: 100 }.event(), "deposit");
    ledger
}

#[test]
fn deposit_then_withdraw_then_stranger_is_refused() {
    let mut ledger = ready();
    let vault = vault_at().0;
    assert_eq!(ledger.balance(&vault), 100);
    assert_eq!(ledger.balance(&user()), 400);
    assert_eq!(withdraw(&mut ledger, &program(), &take_out(authority()), 40), Ok(()));
    assert_eq!(ledger.balance(&vault), 60);
    assert_eq!(ledger.balance(&recipient()), 40);
    assert_eq!(
        withdraw(&mut ledger, &program(), &take_out(user()), 40),
        Err(GalnoError::Unauthorized)
    );
    assert_eq!(ledger.balance(&vault), 60);
    assert_eq!(ledger.balance(&recipient()), 40);
}

#[test]
fn withdraw_beyond_balance_is_refused() {
    let mut ledger = ready();
    let vault = vault_at().0;
    assert_eq!(withdraw(&mut ledger, &program(), &take_out(authority()), 40), Ok(()));
    assert_eq!(ledger.balance(&vault), 60);
    assert_eq!(
        withdraw(&mut ledger, &program(), &take_out(authority()), 1000),
        Err(GalnoError::InsufficientFunds)
    );
    assert_eq!(ledger.balance(&vault), 60);
    assert_eq!(ledger.balance(&recipient()), 40);
}

#[test]
fn deposits_sum_up() {
    let mut ledger = Ledger::new();
    assert_eq!(ledger.fund(&user(), 1000), Ok(()));
    assert_eq!(ledger.fund(&authority(), 50), Ok(()));
    let vault = vault_at().0;
    let by_user = Deposit { user: user(), vault };
    let by_authority = Deposit { user: authority(), vault };
    assert!(deposit(&mut ledger, &program(), &by_user, 1).is_ok());
    assert!(deposit(&mut ledger, &program(), &by_authority, 20).is_ok());
    assert!(deposit(&mut ledger, &program(), &by_user, 300).is_ok());
    assert_eq!(ledger.balance(&vault), 321);
    assert_eq!(ledger.balance(&user()), 699);
    assert_eq!(ledger.balance(&authority()), 30);
    assert_eq!(ledger.data(&vault), AccountData::Vault(Vault {}));
}

#[test]
fn first_deposit_creates_the_vault() {
    let mut ledger = Ledger::new();
    assert_eq!(ledger.fund(&user(), 5), Ok(()));
    let vault = vault_at().0;
    assert_eq!(ledger.lookup(&vault), None);
    assert!(deposit(&mut ledger, &program(), &Deposit { user: user(), vault }, 5).is_ok());
    assert_eq!(ledger.data(&vault), AccountData::Vault(Vault {}));
    assert_eq!(ledger.balance(&vault), 5);
    assert_eq!(ledger.balance(&user()), 0);
}

#[test]
fn zero_deposit_is_rejected() {
    let mut ledger = ready();
    let vault = vault_at().0;
    assert_eq!(
        deposit(&mut ledger, &program(), &Deposit { user: user(), vault }, 0),
        Err(GalnoError::InvalidAmount)
    );
    assert_eq!(ledger.balance(&vault), 100);
    assert_eq!(ledger.balance(&user()), 400);
}

#[test]
fn deposit_beyond_the_payers_balance_is_refused() {
    let mut ledger = ready();
    let vault = vault_at().0;
    assert_eq!(
        deposit(&mut ledger, &program(), &Deposit { user: user(), vault }, 401),
        Err(GalnoError::InsufficientFunds)
    );
    assert_eq!(ledger.balance(&vault), 100);
    assert_eq!(ledger.balance(&user()), 400);
}

#[test]
fn failed_first_deposit_leaves_no_vault() {
    let mut ledger = Ledger::new();
    let vault = vault_at().0;
    assert_eq!(
        deposit(&mut ledger, &program(), &Deposit { user: user(), vault }, 1),
        Err(GalnoError::InsufficientFunds)
    );
    assert_eq!(ledger.lookup(&vault), None);
}

#[test]
fn deposit_to_another_address_is_refused() {
    let mut ledger = ready();
    assert_eq!(
        deposit(&mut ledger, &program(), &Deposit { user: user(), vault: addr(9) }, 10),
        Err(GalnoError::InvalidDerivation)
    );
    assert_eq!(ledger.balance(&addr(9)), 0);
    assert_eq!(ledger.balance(&user()), 400);
}

#[test]
fn second_initialize_fails_and_keeps_the_authority() {
    let mut ledger = ready();
    let again = Initialize { config: config_at(), authority: user() };
    assert_eq!(initialize(&mut ledger, &program(), &again), Err(GalnoError::AlreadyInitialized));
    assert_eq!(ledger.data(&config_at()), AccountData::Config(Config { authority: authority() }));
    let same = Initialize { config: config_at(), authority: authority() };
    assert_eq!(initialize(&mut ledger, &program(), &same), Err(GalnoError::AlreadyInitialized));
}

#[test]
fn initialize_at_another_address_is_refused() {
    let mut ledger = Ledger::new();
    let init = Initialize { config: addr(9), authority: authority() };
    assert_eq!(initialize(&mut ledger, &program(), &init), Err(GalnoError::InvalidDerivation));
    assert_eq!(ledger.lookup(&addr(9)), None);
    assert_eq!(ledger.lookup(&config_at()), None);
}

#[test]
fn initialize_keeps_a_balance_already_at_the_address() {
    let mut ledger = Ledger::new();
    assert_eq!(ledger.fund(&config_at(), 12), Ok(()));
    let init = Initialize { config: config_at(), authority: authority() };
    assert_eq!(initialize(&mut ledger, &program(), &init), Ok(()));
    assert_eq!(ledger.balance(&config_at()), 12);
    assert_eq!(ledger.data(&config_at()), AccountData::Config(Config { authority: authority() }));
}

#[test]
fn stranger_moves_nothing_whatever_the_amount() {
    for amount in [0u64, 1, 100, 101, u64::MAX] {
        let mut ledger = ready();
        assert_eq!(
            withdraw(&mut ledger, &program(), &take_out(user()), amount),
            Err(GalnoError::Unauthorized)
        );
        assert_eq!(ledger.balance(&vault_at().0), 100);
        assert_eq!(ledger.balance(&recipient()), 0);
        assert_eq!(ledger.balance(&user()), 400);
    }
}

#[test]
fn withdraw_before_initialize_is_unauthorized() {
    let mut ledger = Ledger::new();
    assert_eq!(ledger.fund(&user(), 10), Ok(()));
    let vault = vault_at().0;
    assert!(deposit(&mut ledger, &program(), &Deposit { user: user(), vault }, 10).is_ok());
    assert_eq!(
        withdraw(&mut ledger, &program(), &take_out(authority()), 1),
        Err(GalnoError::Unauthorized)
    );
    assert_eq!(ledger.balance(&vault), 10);
}

#[test]
fn authority_withdraws_everything_and_nothing() {
    let mut ledger = ready();
    assert_eq!(withdraw(&mut ledger, &program(), &take_out(authority()), 0), Ok(()));
    assert_eq!(ledger.balance(&vault_at().0), 100);
    assert_eq!(withdraw(&mut ledger, &program(), &take_out(authority()), 100), Ok(()));
    assert_eq!(ledger.balance(&vault_at().0), 0);
    assert_eq!(ledger.balance(&recipient()), 100);
    assert_eq!(ledger.balance(&user()), 400);
}

#[test]
fn stale_bump_is_rejected() {
    let mut ledger = ready();
    let mut ctx = take_out(authority());
    ctx.vault_bump = ctx.vault_bump.wrapping_add(1);
    assert_eq!(withdraw(&mut ledger, &program(), &ctx, 40), Err(GalnoError::InvalidDerivation));
    assert_eq!(ledger.balance(&vault_at().0), 100);
    assert_eq!(ledger.balance(&recipient()), 0);
}

#[test]
fn forged_config_or_vault_is_rejected() {
    let mut ledger = ready();
    assert_eq!(ledger.fund(&addr(9), 77), Ok(()));
    assert_eq!(
        ledger.allocate(&addr(8), AccountData::Config(Config { authority: user() })),
        Ok(())
    );
    let mut forged_config = take_out(user());
    forged_config.config = addr(8);
    assert_eq!(
        withdraw(&mut ledger, &program(), &forged_config, 40),
        Err(GalnoError::InvalidDerivation)
    );
    let mut forged_vault = take_out(authority());
    forged_vault.vault = addr(9);
    assert_eq!(
        withdraw(&mut ledger, &program(), &forged_vault, 40),
        Err(GalnoError::InvalidDerivation)
    );
    assert_eq!(ledger.balance(&vault_at().0), 100);
    assert_eq!(ledger.balance(&addr(9)), 77);
    assert_eq!(ledger.balance(&recipient()), 0);
}

#[test]
fn recipient_without_room_is_refused() {
    let mut ledger = ready();
    assert_eq!(ledger.fund(&recipient(), u64::MAX - 39), Ok(()));
    assert_eq!(
        withdraw(&mut ledger, &program(), &take_out(authority()), 40),
        Err(GalnoError::BalanceOverflow)
    );
    assert_eq!(ledger.balance(&vault_at().0), 100);
    assert_eq!(ledger.balance(&recipient()), u64::MAX - 39);
    assert_eq!(withdraw(&mut ledger, &program(), &take_out(authority()), 39), Ok(()));
    assert_eq!(ledger.balance(&recipient()), u64::MAX);
    assert_eq!(ledger.fund(&recipient(), 1), Err(GalnoError::BalanceOverflow));
}

#[test]
fn withdraw_to_the_vault_itself_moves_nothing() {
    let mut ledger = ready();
    let mut ctx = take_out(authority());
    ctx.recipient = ctx.vault;
    assert_eq!(withdraw(&mut ledger, &program(), &ctx, 40), Ok(()));
    assert_eq!(ledger.balance(&vault_at().0), 100);
}

#[test]
fn derivation_is_stable_and_matches_the_host() {
    let first = derive_address(b"vault", &program());
    let second = derive_address(b"vault", &program());
    assert_eq!(first, second);
    let (address, bump) = first.unwrap();
    let (key, host_bump) = Pubkey::find_program_address(&[b"vault"], &Pubkey::new_from_array([7; 32]));
    assert_eq!(address.to_bytes(), key.to_bytes());
    assert_eq!(bump, host_bump);
    assert_ne!(address, program());
    let made = Pubkey::create_program_address(&[b"vault", &[bump]], &Pubkey::new_from_array([7; 32]));
    assert_eq!(made.unwrap().to_bytes(), address.to_bytes());
}

#[test]
fn labels_and_programs_part_the_addresses() {
    assert_ne!(config_at(), vault_at().0);
    let elsewhere = derive_address(b"vault", &addr(8)).unwrap().0;
    assert_ne!(elsewhere, vault_at().0);
    assert_eq!(config_label(), b"config".to_vec());
    assert_eq!(vault_label(), b"vault".to_vec());
}

#[test]
fn overlong_label_derives_to_nothing() {
    let label = [0u8; 33];
    assert_eq!(derive_address(&label, &program()), Err(GalnoError::InvalidDerivation));
    let longest = [0u8; 32];
    assert!(derive_address(&longest, &program()).is_ok());
}

#[test]
fn addresses_compare_by_bytes() {
    let mut bytes = [5u8; 32];
    assert!(Address::new(bytes).same(&addr(5)));
    bytes[31] = 6;
    assert!(!Address::new(bytes).same(&addr(5)));
    assert_eq!(Address::new(bytes).to_bytes(), bytes);
}

#[test]
fn ledger_transfer_is_all_or_nothing() {
    let mut ledger = Ledger::new();
    assert_eq!(ledger.balance(&user()), 0);
    assert_eq!(ledger.fund(&user(), 10), Ok(()));
    assert_eq!(ledger.refusal(&user(), &recipient(), 11), Some(GalnoError::InsufficientFunds));
    assert_eq!(ledger.transfer(&user(), &recipient(), 11), Err(GalnoError::InsufficientFunds));
    assert_eq!(ledger.balance(&user()), 10);
    assert_eq!(ledger.lookup(&recipient()), None);
    assert_eq!(ledger.refusal(&user(), &recipient(), 10), None);
    assert_eq!(ledger.transfer(&user(), &recipient(), 4), Ok(()));
    assert_eq!(ledger.balance(&user()), 6);
    assert_eq!(ledger.balance(&recipient()), 4);
    assert_eq!(ledger.data(&recipient()), AccountData::System);
    assert_eq!(ledger.transfer(&addr(9), &recipient(), 0), Ok(()));
    assert_eq!(ledger.lookup(&addr(9)), None);
}

#[test]
fn errors_have_their_text() {
    assert_eq!(GalnoError::Unauthorized.message(), "Unauthorized");
    assert_eq!(GalnoError::AlreadyInitialized.message(), "AlreadyInitialized");
    assert_eq!(GalnoError::InsufficientFunds.message(), "InsufficientFunds");
    assert_eq!(GalnoError::InvalidDerivation.message(), "InvalidDerivation");
    assert_eq!(GalnoError::InvalidAmount.message(), "InvalidAmount");
    assert_eq!(GalnoError::BalanceOverflow.message(), "BalanceOverflow");
}

#[test]
fn stored_records_are_not_written_over() {
    let mut ledger = ready();
    let forged = AccountData::Config(Config { authority: user() });
    assert_eq!(ledger.allocate(&config_at(), forged), Err(GalnoError::AlreadyInitialized));
    assert_eq!(ledger.allocate(&vault_at().0, forged), Err(GalnoError::AlreadyInitialized));
    assert_eq!(ledger.data(&config_at()), AccountData::Config(Config { authority: authority() }));
    assert_eq!(ledger.data(&vault_at().0), AccountData::Vault(Vault {}));
    assert_eq!(ledger.balance(&vault_at().0), 100);
}

#[test]
fn zero_deposit_to_another_address_is_a_derivation_fault() {
    let mut ledger = ready();
    assert_eq!(
        deposit(&mut ledger, &program(), &Deposit { user: user(), vault: addr(9) }, 0),
        Err(GalnoError::InvalidDerivation)
    );
    assert_eq!(ledger.lookup(&addr(9)), None);
    assert_eq!(ledger.balance(&vault_at().0), 100);
    assert_eq!(ledger.balance(&user()), 400);
}

#[test]
fn deposit_paid_by_the_vault_adds_nothing() {
    let mut ledger = ready();
    let vault = vault_at().0;
    assert!(deposit(&mut ledger, &program(), &Deposit { user: vault, vault }, 30).is_ok());
    assert_eq!(ledger.balance(&vault), 100);
    assert!(deposit(&mut ledger, &program(), &Deposit { user: user(), vault }, 30).is_ok());
    assert_eq!(ledger.balance(&vault), 130);
}
