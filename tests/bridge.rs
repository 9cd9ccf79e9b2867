use incognito_bridge::error::BridgeError;
use incognito_bridge::identity::Identity;
use incognito_bridge::instruction::BridgeInstruction;
use incognito_bridge::processor::{
    assert_rent_exempt, check_shield, Account, Authority, Outcome, Processor, TokenTransfer,
};
use incognito_bridge::state::{IncognitoProxy, UnshieldRequest};
use solana_program::program_option::COption;
use solana_program::program_pack::Pack;
use solana_program::pubkey::Pubkey;
use spl_token::state::{Account as TokenAccount, AccountState};
use std::collections::HashMap;

const TOKEN_ACCOUNT_MINIMUM: u64 = 2_039_280;

fn id(b: u8) -> Identity {
    Identity::new([b; 32])
}

fn token_program() -> Identity {
    Identity::new(spl_token::id().to_bytes())
}

fn rent_sysvar() -> Identity {
    Identity::new(solana_program::sysvar::rent::id().to_bytes())
}

fn account(key: Identity, owner: Identity, is_signer: bool, lamports: u64, data: Vec<u8>) -> Account {
    Account { key, owner, is_signer, is_writable: true, lamports, data }
}

fn rent_data() -> Vec<u8> {
    let mut d = Vec::new();
    d.extend_from_slice(&3480u64.to_le_bytes());
    d.extend_from_slice(&2.0f64.to_le_bytes());
    d.push(50u8);
    d
}

fn token_account_data(owner: &Identity, amount: u64) -> Vec<u8> {
    let acc = TokenAccount {
        mint: Pubkey::new_from_array([9; 32]),
        owner: Pubkey::new_from_array(owner.bytes),
        amount,
        delegate: COption::None,
        state: AccountState::Initialized,
        is_native: COption::None,
        delegated_amount: 0,
        close_authority: COption::None,
    };
    let mut data = vec![0u8; TokenAccount::LEN];
    TokenAccount::pack(acc, &mut data).unwrap();
    data
}

fn registry(bump_seed: u8, vault: Identity, beacons: Vec<Identity>) -> IncognitoProxy {
    IncognitoProxy { is_initialized: true, bump_seed, vault, beacons }
}

fn registry_data(p: &IncognitoProxy, len: usize) -> Vec<u8> {
    let mut d = vec![0u8; len];
    p.pack(&mut d).unwrap();
    d
}

/// A registry address for which `bump_seed` yields a vault authority.
fn registry_key_for(program: &Identity, bump_seed: u8) -> (Identity, Identity) {
    let program = Pubkey::new_from_array(program.bytes);
    for b in 1u8..=255 {
        let key = [b; 32];
        if let Ok(a) = Pubkey::create_program_address(&[&key, &[bump_seed]], &program) {
            return (Identity::new(key), Identity::new(a.to_bytes()));
        }
    }
    panic!("no registry address found");
}

struct Setup {
    program: Identity,
    registry_key: Identity,
    authority: Identity,
    vault: Identity,
}

fn setup() -> Setup {
    let program = id(200);
    let (registry_key, authority) = registry_key_for(&program, 7);
    Setup { program, registry_key, authority, vault: id(100) }
}

fn shield_accounts(s: &Setup, signer: bool, vault_owner: &Identity, vault_lamports: u64) -> Vec<Account> {
    let reg = registry(7, s.vault, vec![]);
    vec![
        account(id(1), id(0), signer, 10, vec![]),
        account(id(2), token_program(), false, TOKEN_ACCOUNT_MINIMUM, token_account_data(&id(1), 5000)),
        account(s.vault, token_program(), false, vault_lamports, token_account_data(vault_owner, 0)),
        account(rent_sysvar(), id(0), false, 1, rent_data()),
        account(s.registry_key, s.program, false, 1, registry_data(&reg, 64)),
        account(token_program(), id(0), false, 1, vec![]),
    ]
}

fn unshield_accounts(s: &Setup, signer: bool, vault: Identity) -> Vec<Account> {
    let reg = registry(7, s.vault, vec![]);
    vec![
        account(id(1), id(0), signer, 10, vec![]),
        account(id(2), token_program(), false, 1, vec![]),
        account(vault, token_program(), false, 1, token_account_data(&s.authority, 0)),
        account(s.authority, id(0), false, 0, vec![]),
        account(s.registry_key, s.program, false, 1, registry_data(&reg, 64)),
        account(id(2), token_program(), false, 1, vec![]),
        account(token_program(), id(0), false, 1, vec![]),
    ]
}

fn shield_payload(amount: u64, address: &str) -> Vec<u8> {
    let mut d = vec![0u8];
    d.extend_from_slice(&amount.to_le_bytes());
    d.extend_from_slice(&(address.len() as u32).to_le_bytes());
    d.extend_from_slice(address.as_bytes());
    d
}

fn unshield_payload(amount: u64, destination: &Identity) -> Vec<u8> {
    let mut d = vec![1u8];
    d.extend_from_slice(&amount.to_le_bytes());
    d.extend_from_slice(&destination.bytes);
    d
}

fn init_payload(p: &IncognitoProxy) -> Vec<u8> {
    let mut body = vec![0u8; 38 + 32 * p.beacons.len()];
    p.pack(&mut body).unwrap();
    let mut d = vec![2u8];
    d.extend_from_slice(&body);
    d
}

fn apply(balances: &mut HashMap<[u8; 32], u64>, t: &TokenTransfer) {
    *balances.get_mut(&t.source.bytes).unwrap() -= t.amount;
    *balances.get_mut(&t.destination.bytes).unwrap() += t.amount;
}

#[test]
fn rent_guard_boundary() {
    assert_eq!(assert_rent_exempt(TOKEN_ACCOUNT_MINIMUM, TOKEN_ACCOUNT_MINIMUM), Ok(()));
    assert_eq!(
        assert_rent_exempt(TOKEN_ACCOUNT_MINIMUM - 1, TOKEN_ACCOUNT_MINIMUM),
        Err(BridgeError::NotRentExempt)
    );
}

#[test]
fn shield_checks_rent_of_vault() {
    let s = setup();
    let ok = shield_accounts(&s, true, &s.authority, TOKEN_ACCOUNT_MINIMUM);
    assert!(Processor::process(&s.program, &ok, &shield_payload(10, "addr")).is_ok());
    let poor = shield_accounts(&s, true, &s.authority, TOKEN_ACCOUNT_MINIMUM - 1);
    assert_eq!(
        Processor::process(&s.program, &poor, &shield_payload(10, "addr")).err(),
        Some(BridgeError::NotRentExempt)
    );
}

#[test]
fn check_shield_reads_vault_owner() {
    let s = setup();
    let accts = shield_accounts(&s, true, &s.authority, TOKEN_ACCOUNT_MINIMUM);
    assert_eq!(check_shield(&s.program, &accts[2], &accts[4], &token_program(), 0), Ok(()));
    let other = shield_accounts(&s, true, &id(55), TOKEN_ACCOUNT_MINIMUM);
    assert_eq!(
        check_shield(&s.program, &other[2], &other[4], &token_program(), 0),
        Err(BridgeError::IncorrectProgramId)
    );
}

#[test]
fn shield_moves_amount_into_vault() {
    let s = setup();
    let accts = shield_accounts(&s, true, &s.authority, TOKEN_ACCOUNT_MINIMUM);
    match Processor::process(&s.program, &accts, &shield_payload(1000, "12abc")).unwrap() {
        Outcome::Shielded { transfer, inc_address } => {
            assert_eq!(inc_address, "12abc");
            assert_eq!(transfer.amount, 1000);
            assert_eq!(transfer.source.bytes, [2; 32]);
            assert_eq!(transfer.destination.bytes, s.vault.bytes);
            assert_eq!(transfer.token_program.bytes, token_program().bytes);
            match transfer.authority {
                Authority::HeldKey { key } => assert_eq!(key.bytes, [1; 32]),
                _ => panic!("deposit must be signed by the depositor"),
            }
        }
        _ => panic!("expected a deposit"),
    }
}

#[test]
fn shield_into_foreign_vault_fails() {
    let s = setup();
    let accts = shield_accounts(&s, true, &id(77), TOKEN_ACCOUNT_MINIMUM);
    assert_eq!(
        Processor::process(&s.program, &accts, &shield_payload(1, "a")).err(),
        Some(BridgeError::IncorrectProgramId)
    );
}

#[test]
fn shield_with_forged_registry_fails() {
    let s = setup();
    let mut accts = shield_accounts(&s, true, &s.authority, TOKEN_ACCOUNT_MINIMUM);
    accts[4].owner = id(66);
    assert_eq!(
        Processor::process(&s.program, &accts, &shield_payload(1, "a")).err(),
        Some(BridgeError::IncorrectProgramId)
    );
}

#[test]
fn shield_with_wrong_rent_account_fails() {
    let s = setup();
    let mut accts = shield_accounts(&s, true, &s.authority, TOKEN_ACCOUNT_MINIMUM);
    accts[3].key = id(3);
    assert_eq!(
        Processor::process(&s.program, &accts, &shield_payload(1, "a")).err(),
        Some(BridgeError::InvalidArgument)
    );
}

#[test]
fn shield_with_short_rent_data_fails() {
    let s = setup();
    let mut accts = shield_accounts(&s, true, &s.authority, TOKEN_ACCOUNT_MINIMUM);
    accts[3].data.truncate(16);
    assert_eq!(
        Processor::process(&s.program, &accts, &shield_payload(1, "a")).err(),
        Some(BridgeError::InvalidArgument)
    );
}

#[test]
fn shield_with_overflowing_rent_rate_fails() {
    let s = setup();
    let mut accts = shield_accounts(&s, true, &s.authority, u64::MAX);
    accts[3].data[0..8].copy_from_slice(&u64::MAX.to_le_bytes());
    assert_eq!(
        Processor::process(&s.program, &accts, &shield_payload(1, "a")).err(),
        Some(BridgeError::InvalidArgument)
    );
}

#[test]
fn non_signer_is_rejected_first() {
    let s = setup();
    let shield = shield_accounts(&s, false, &s.authority, 0);
    assert_eq!(
        Processor::process(&s.program, &shield, &shield_payload(1, "a")).err(),
        Some(BridgeError::MissingRequiredSignature)
    );
    let unshield = unshield_accounts(&s, false, id(99));
    assert_eq!(
        Processor::process(&s.program, &unshield, &unshield_payload(1, &id(2))).err(),
        Some(BridgeError::MissingRequiredSignature)
    );
    let init = vec![account(id(1), id(0), false, 0, vec![]), account(id(5), id(44), false, 0, vec![])];
    let p = registry(7, s.vault, vec![]);
    assert_eq!(
        Processor::process(&s.program, &init, &init_payload(&p)).err(),
        Some(BridgeError::MissingRequiredSignature)
    );
}

#[test]
fn too_few_accounts_fail() {
    let s = setup();
    let accts = vec![account(id(1), id(0), true, 0, vec![])];
    assert_eq!(
        Processor::process(&s.program, &accts, &shield_payload(1, "a")).err(),
        Some(BridgeError::NotEnoughAccountKeys)
    );
    assert_eq!(
        Processor::process(&s.program, &vec![], &unshield_payload(1, &id(2))).err(),
        Some(BridgeError::NotEnoughAccountKeys)
    );
}

#[test]
fn unshield_requires_registered_vault() {
    let s = setup();
    let good = unshield_accounts(&s, true, s.vault);
    assert!(Processor::process(&s.program, &good, &unshield_payload(5, &id(2))).is_ok());
    let bad = unshield_accounts(&s, true, id(101));
    assert_eq!(
        Processor::process(&s.program, &bad, &unshield_payload(5, &id(2))).err(),
        Some(BridgeError::IncorrectProgramId)
    );
}

#[test]
fn unshield_uses_derived_authority() {
    let s = setup();
    let accts = unshield_accounts(&s, true, s.vault);
    let first = Processor::process(&s.program, &accts, &unshield_payload(5, &id(2))).unwrap();
    let second = Processor::process(&s.program, &accts, &unshield_payload(5, &id(2))).unwrap();
    for outcome in [first, second] {
        match outcome {
            Outcome::Unshielded { transfer } => match transfer.authority {
                Authority::Derived { address, registry, bump_seed } => {
                    assert_eq!(address.bytes, s.authority.bytes);
                    assert_eq!(registry.bytes, s.registry_key.bytes);
                    assert_eq!(bump_seed, 7);
                }
                _ => panic!("withdrawal must use the vault authority"),
            },
            _ => panic!("expected a withdrawal"),
        }
    }
}

#[test]
fn unshield_on_uninitialized_registry_fails() {
    let s = setup();
    let mut accts = unshield_accounts(&s, true, s.vault);
    accts[4].data = vec![0u8; 64];
    assert_eq!(
        Processor::process(&s.program, &accts, &unshield_payload(5, &id(2))).err(),
        Some(BridgeError::UninitializedAccount)
    );
}

#[test]
fn unshield_with_wrong_token_program_fails() {
    let s = setup();
    let mut accts = unshield_accounts(&s, true, s.vault);
    accts[6].key = id(8);
    assert_eq!(
        Processor::process(&s.program, &accts, &unshield_payload(5, &id(2))).err(),
        Some(BridgeError::IncorrectProgramId)
    );
}

#[test]
fn init_then_reinit_is_rejected() {
    let s = setup();
    let p = registry(7, s.vault, vec![id(31), id(32)]);
    let mut accts = vec![
        account(id(1), id(0), true, 0, vec![]),
        account(s.registry_key, s.program, false, 0, vec![0u8; 120]),
    ];
    let data = match Processor::process(&s.program, &accts, &init_payload(&p)).unwrap() {
        Outcome::Initialized { registry_data } => registry_data,
        _ => panic!("expected a bootstrap"),
    };
    let stored = IncognitoProxy::unpack(&data).unwrap();
    assert!(stored.is_initialized);
    assert_eq!(stored.bump_seed, 7);
    assert_eq!(stored.vault.bytes, s.vault.bytes);
    assert_eq!(stored.beacons.len(), 2);
    assert_eq!(stored.beacons[1].bytes, [32; 32]);
    accts[1].data = data;
    let other = registry(9, id(3), vec![]);
    assert_eq!(
        Processor::process(&s.program, &accts, &init_payload(&other)).err(),
        Some(BridgeError::BeaconsInitialized)
    );
}

#[test]
fn init_marks_registry_initialized_whatever_the_payload_says() {
    let s = setup();
    let mut p = registry(7, s.vault, vec![id(31)]);
    p.is_initialized = false;
    let mut accts = vec![
        account(id(1), id(0), true, 0, vec![]),
        account(s.registry_key, s.program, false, 0, vec![0u8; 80]),
    ];
    let data = match Processor::process(&s.program, &accts, &init_payload(&p)).unwrap() {
        Outcome::Initialized { registry_data } => registry_data,
        _ => panic!("expected a bootstrap"),
    };
    assert_eq!(data[0], 1);
    let stored = IncognitoProxy::unpack(&data).unwrap();
    assert!(stored.is_initialized);
    assert_eq!(stored.beacons[0].bytes, [31; 32]);
    accts[1].data = data;
    assert_eq!(
        Processor::process(&s.program, &accts, &init_payload(&p)).err(),
        Some(BridgeError::BeaconsInitialized)
    );
}

#[test]
fn init_needs_owned_registry_with_room() {
    let s = setup();
    let p = registry(7, s.vault, vec![id(31), id(32)]);
    let foreign = vec![account(id(1), id(0), true, 0, vec![]), account(id(5), id(44), false, 0, vec![0u8; 120])];
    assert_eq!(
        Processor::process(&s.program, &foreign, &init_payload(&p)).err(),
        Some(BridgeError::IncorrectProgramId)
    );
    let small = vec![account(id(1), id(0), true, 0, vec![]), account(id(5), s.program, false, 0, vec![0u8; 60])];
    assert_eq!(
        Processor::process(&s.program, &small, &init_payload(&p)).err(),
        Some(BridgeError::InvalidAccountData)
    );
}

#[test]
fn instruction_decoding() {
    match BridgeInstruction::unpack(&shield_payload(258, "xyz")).unwrap() {
        BridgeInstruction::Shield { amount, inc_address } => {
            assert_eq!(amount, 258);
            assert_eq!(inc_address, "xyz");
        }
        _ => panic!("expected Shield"),
    }
    match BridgeInstruction::unpack(&unshield_payload(7, &id(4))).unwrap() {
        BridgeInstruction::UnShield { unshield_info } => {
            assert_eq!(unshield_info.amount, 7);
            assert_eq!(unshield_info.destination.bytes, [4; 32]);
        }
        _ => panic!("expected UnShield"),
    }
    assert!(BridgeInstruction::unpack(&vec![]).is_err());
    assert!(BridgeInstruction::unpack(&vec![3u8, 0, 0]).is_err());
    let mut truncated = shield_payload(1, "abcd");
    truncated.pop();
    assert!(BridgeInstruction::unpack(&truncated).is_err());
    let mut bad_text = shield_payload(1, "ab");
    let n = bad_text.len();
    bad_text[n - 1] = 0xff;
    assert!(BridgeInstruction::unpack(&bad_text).is_err());
    assert_eq!(
        Processor::process(&id(1), &vec![], &vec![9u8]).err(),
        Some(BridgeError::InvalidInstructionData)
    );
}

#[test]
fn registry_layout_round_trip() {
    let p = IncognitoProxy { is_initialized: false, bump_seed: 254, vault: id(6), beacons: vec![id(7), id(8), id(9)] };
    let mut data = vec![0xaau8; 140];
    p.pack(&mut data).unwrap();
    assert_eq!(&data[0..2], &[0, 254]);
    assert_eq!(&data[34..38], &[3, 0, 0, 0]);
    assert_eq!(data[133], 9);
    assert_eq!(data[134], 0xaa);
    assert_eq!(data[139], 0xaa);
    let q = IncognitoProxy::unpack_unchecked(&data).unwrap();
    assert!(!q.is_initialized);
    assert_eq!(q.bump_seed, 254);
    assert_eq!(q.beacons.len(), 3);
    assert_eq!(q.beacons[2].bytes, [9; 32]);
    assert_eq!(IncognitoProxy::unpack(&data).err(), Some(BridgeError::UninitializedAccount));
    let mut short = vec![0u8; 100];
    assert_eq!(p.pack(&mut short), Err(BridgeError::InvalidAccountData));
    assert_eq!(short, vec![0u8; 100]);
    assert_eq!(IncognitoProxy::unpack_unchecked(&vec![2u8; 40]).err(), Some(BridgeError::InvalidAccountData));
}

#[test]
fn unshield_request_carries_amount() {
    let s = setup();
    let accts = unshield_accounts(&s, true, s.vault);
    let req = UnshieldRequest { amount: 42, destination: id(2) };
    match Processor::process_unshield(&accts, req, &s.program).unwrap() {
        Outcome::Unshielded { transfer } => {
            assert_eq!(transfer.amount, 42);
            assert_eq!(transfer.source.bytes, s.vault.bytes);
            assert_eq!(transfer.destination.bytes, [2; 32]);
        }
        _ => panic!("expected a withdrawal"),
    }
}

#[test]
fn end_to_end_shield_then_unshield() {
    let s = setup();
    let user_token = id(2);
    let mut balances: HashMap<[u8; 32], u64> = HashMap::new();
    balances.insert(user_token.bytes, 5000);
    balances.insert(s.vault.bytes, 0);
    balances.insert(s.authority.bytes, 0);

    let p = registry(7, s.vault, vec![]);
    let init = vec![
        account(id(1), id(0), true, 0, vec![]),
        account(s.registry_key, s.program, false, 0, vec![0u8; 64]),
    ];
    let registry_data = match Processor::process(&s.program, &init, &init_payload(&p)).unwrap() {
        Outcome::Initialized { registry_data } => registry_data,
        _ => panic!("expected a bootstrap"),
    };

    let mut shield = shield_accounts(&s, true, &s.authority, TOKEN_ACCOUNT_MINIMUM);
    shield[4].data = registry_data.clone();
    match Processor::process(&s.program, &shield, &shield_payload(1000, "inc-user")).unwrap() {
        Outcome::Shielded { transfer, .. } => apply(&mut balances, &transfer),
        _ => panic!("expected a deposit"),
    }
    assert_eq!(balances[&user_token.bytes], 4000);
    assert_eq!(balances[&s.vault.bytes], 1000);

    let mut unshield = unshield_accounts(&s, true, s.vault);
    unshield[4].data = registry_data;
    match Processor::process(&s.program, &unshield, &unshield_payload(1000, &user_token)).unwrap() {
        Outcome::Unshielded { transfer } => apply(&mut balances, &transfer),
        _ => panic!("expected a withdrawal"),
    }
    assert_eq!(balances[&user_token.bytes], 5000);
    assert_eq!(balances[&s.vault.bytes], 0);
    assert_eq!(balances[&s.authority.bytes], 0);
}
