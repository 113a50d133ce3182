use serum_registry::access_control::{
    check_vault_init, clock, governance, registrar, rent, token, vault, vault_init, AccountInfo,
    TokenAccount,
};
use serum_registry::vault::{signer_seeds, vault_authority};
use serum_registry::error::RegistryError;
use serum_registry::pubkey::Pubkey;
use serum_registry::registrar::{Clock, Registrar};

fn key(n: u8) -> Pubkey {
    Pubkey([n; 32])
}

fn account(k: u8, owner: u8, is_signer: bool) -> AccountInfo {
    AccountInfo { key: key(k), owner: key(owner), is_signer }
}

fn registrar_record() -> Registrar {
    Registrar {
        initialized: true,
        authority: key(20),
        vault: key(7),
        mega_vault: key(8),
        reward_activation_threshold: 1,
        deactivation_timelock_premium: 1,
    }
}

fn token_record(owner: u8, initialized: bool) -> TokenAccount {
    TokenAccount { mint: key(30), owner: key(owner), amount: 5, initialized }
}

#[test]
fn governance_checks_signer_and_authority() {
    let program = key(1);
    let reg_acc = account(2, 1, false);
    let r = registrar_record();
    assert!(governance(&program, &reg_acc, &r, &account(20, 0, true)).is_ok());
    assert_eq!(
        governance(&program, &reg_acc, &r, &account(20, 0, false)).err(),
        Some(RegistryError::Unauthorized)
    );
    assert_eq!(
        governance(&program, &reg_acc, &r, &account(21, 0, true)).err(),
        Some(RegistryError::Unauthorized)
    );
    assert_eq!(
        governance(&program, &account(2, 9, false), &r, &account(20, 0, true)).err(),
        Some(RegistryError::InvalidAccountOwner)
    );
}

#[test]
fn registrar_checks_owner_and_initialized() {
    let program = key(1);
    let mut r = registrar_record();
    let got = registrar(&account(2, 1, false), &r, &program).unwrap();
    assert!(got.vault == key(7));
    assert_eq!(
        registrar(&account(2, 3, false), &r, &program).err(),
        Some(RegistryError::InvalidAccountOwner)
    );
    r.initialized = false;
    assert_eq!(
        registrar(&account(2, 1, false), &r, &program).err(),
        Some(RegistryError::NotInitialized)
    );
}

#[test]
fn clock_checks_sysvar() {
    let c = clock(&account(12, 0, false), &key(12), &Clock { slot: 44 }).unwrap();
    assert_eq!(c.slot, 44);
    assert_eq!(
        clock(&account(13, 0, false), &key(12), &Clock { slot: 44 }).err(),
        Some(RegistryError::InvalidClockSysvar)
    );
}

#[test]
fn rent_checks_sysvar() {
    assert_eq!(rent(&account(14, 0, false), &key(14)), Ok(()));
    assert_eq!(rent(&account(15, 0, false), &key(14)), Err(RegistryError::InvalidRentSysvar));
}

#[test]
fn vault_matches_stake_class() {
    let r = registrar_record();
    assert_eq!(vault(&account(7, 11, false), &r, false), Ok(()));
    assert_eq!(vault(&account(8, 11, false), &r, true), Ok(()));
    assert_eq!(vault(&account(8, 11, false), &r, false), Err(RegistryError::RegistrarVaultMismatch));
    assert_eq!(vault(&account(7, 11, false), &r, true), Err(RegistryError::RegistrarVaultMismatch));
}

#[test]
fn token_checks_owner_and_state() {
    let tp = key(11);
    let t = token(&account(7, 11, false), &token_record(40, true), &tp).unwrap();
    assert_eq!(t.amount, 5);
    assert_eq!(
        token(&account(7, 12, false), &token_record(40, true), &tp).err(),
        Some(RegistryError::InvalidAccountOwner)
    );
    assert_eq!(
        token(&account(7, 11, false), &token_record(40, false), &tp).err(),
        Some(RegistryError::NotInitialized)
    );
}

#[test]
fn vault_init_checks_in_order() {
    let tp = key(11);
    let acc = account(7, 11, false);
    assert_eq!(check_vault_init(&acc, &token_record(40, true), &tp, Some(key(40)), true), Ok(()));
    assert_eq!(
        check_vault_init(&account(7, 1, false), &token_record(40, true), &tp, None, false),
        Err(RegistryError::InvalidAccountOwner)
    );
    assert_eq!(
        check_vault_init(&acc, &token_record(40, true), &tp, None, true),
        Err(RegistryError::InvalidVaultNonce)
    );
    assert_eq!(
        check_vault_init(&acc, &token_record(40, true), &tp, Some(key(41)), true),
        Err(RegistryError::InvalidVaultAuthority)
    );
    assert_eq!(
        check_vault_init(&acc, &token_record(40, true), &tp, Some(key(40)), false),
        Err(RegistryError::NotRentExempt)
    );
}

fn derived(registrar: u8, nonce: u8, program: u8) -> Option<Pubkey> {
    let program = solana_program::pubkey::Pubkey::new_from_array([program; 32]);
    let seeds: [&[u8]; 2] = [&[registrar; 32], &[nonce]];
    solana_program::pubkey::Pubkey::create_program_address(&seeds, &program)
        .ok()
        .map(|k| Pubkey(k.to_bytes()))
}

#[test]
fn signer_seeds_are_key_then_nonce() {
    let seeds = signer_seeds(&key(2), 9);
    assert_eq!(seeds, vec![vec![2u8; 32], vec![9u8]]);
}

#[test]
fn vault_authority_is_the_program_address() {
    let mut found_some = false;
    let mut found_none = false;
    for nonce in 0..=255u8 {
        let expected = derived(2, nonce, 1);
        let got = vault_authority(&key(2), nonce, &key(1));
        assert_eq!(got.is_some(), expected.is_some());
        if let (Some(g), Some(e)) = (got, expected) {
            assert!(g == e);
            assert!(g != key(2));
            assert!(g != key(1));
            found_some = true;
        } else {
            found_none = true;
        }
    }
    assert!(found_some && found_none);
}

#[test]
fn vault_init_derives_the_authority() {
    let tp = key(11);
    let acc = account(7, 11, false);
    let reg_acc = account(2, 1, false);
    let program = key(1);
    let mut ok_nonce = None;
    let mut bad_nonce = None;
    for nonce in 0..=255u8 {
        match derived(2, nonce, 1) {
            Some(k) if ok_nonce.is_none() => ok_nonce = Some((nonce, k)),
            None if bad_nonce.is_none() => bad_nonce = Some(nonce),
            _ => {}
        }
    }
    let (nonce, authority) = ok_nonce.unwrap();
    let vault = TokenAccount { mint: key(30), owner: authority, amount: 0, initialized: true };
    assert_eq!(vault_init(&acc, &vault, &reg_acc, true, nonce, &tp, &program), Ok(()));
    assert_eq!(
        vault_init(&acc, &vault, &reg_acc, false, nonce, &tp, &program),
        Err(RegistryError::NotRentExempt)
    );
    assert_eq!(
        vault_init(&acc, &token_record(40, true), &reg_acc, true, nonce, &tp, &program),
        Err(RegistryError::InvalidVaultAuthority)
    );
    assert_eq!(
        vault_init(&acc, &vault, &reg_acc, true, bad_nonce.unwrap(), &tp, &program),
        Err(RegistryError::InvalidVaultNonce)
    );
}
