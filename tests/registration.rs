use agent_registry::account::AccountView;
use agent_registry::address::{find_program_address, verify_derivation, Address};
use agent_registry::error::ProgramError;
use agent_registry::mpl_agent_identity::processor::{process_instruction, RegisterIdentityV1Args};
use agent_registry::plan::AdapterKind;

fn core_id() -> Address {
    Address::new(mpl_core::ID.to_bytes())
}

fn system_id() -> Address {
    Address::new([0u8; 32])
}

fn addr(b: u8) -> Address {
    Address::new([b; 32])
}

fn account(key: Address, owner: Address, data: Vec<u8>) -> AccountView {
    AccountView { key, owner, is_signer: false, is_writable: true, lamports: 0, data }
}

fn program() -> Address {
    addr(7)
}

fn asset() -> Address {
    addr(9)
}

fn identity_seeds(asset: &Address) -> Vec<Vec<u8>> {
    vec![b"agent_identity".to_vec(), asset.bytes.to_vec()]
}

fn uri_data(opcode: u8, uri: &str) -> Vec<u8> {
    let mut d = vec![opcode, 0, 0, 0, 0, 0, 0, 0];
    d.extend_from_slice(&(uri.len() as u32).to_le_bytes());
    d.extend_from_slice(uri.as_bytes());
    d
}

fn identity_accounts(record: Address, asset_kind: u8, system: Address) -> Vec<AccountView> {
    let p = program();
    vec![
        account(record, system_id(), vec![]),
        account(asset(), core_id(), vec![asset_kind, 0, 0, 0]),
        account(p, p, vec![]),
        account(addr(4), system_id(), vec![]),
        account(p, p, vec![]),
        account(core_id(), addr(0), vec![]),
        account(system, addr(0), vec![]),
    ]
}

fn canonical_identity_address() -> (Address, u8) {
    find_program_address(&identity_seeds(&asset()), &program()).expect("a bump derives")
}

#[test]
fn scenario_a_registers_identity_and_links_adapter() {
    let (record, bump) = canonical_identity_address();
    let accounts = identity_accounts(record, 1, system_id());
    let reg = process_instruction(&program(), &accounts, &uri_data(0, "https://agents.example/a.json"))
        .expect("registration goes through");
    assert_eq!(reg.creations.len(), 1);
    let c = &reg.creations[0];
    assert_eq!(c.address.bytes, record.bytes);
    assert_eq!(c.payer.bytes, [4u8; 32]);
    assert_eq!(c.space, 40);
    assert_eq!(c.owner.bytes, program().bytes);
    let mut image = vec![1u8, bump, 0, 0, 0, 0, 0, 0];
    image.extend_from_slice(&[9u8; 32]);
    assert_eq!(c.image, image);
    let mut seeds = identity_seeds(&asset());
    seeds.push(vec![bump]);
    assert_eq!(c.signer_seeds, seeds);
    assert_eq!(reg.link.kind, AdapterKind::AppData);
    assert_eq!(reg.link.entity.bytes, [9u8; 32]);
    assert!(reg.link.collection.is_none());
    assert!(reg.link.authority.is_none());
    assert_eq!(reg.link.acting_authority().bytes, [4u8; 32]);
    assert_eq!(reg.link.data_authority.bytes, record.bytes);
    let attach = reg.link.attachment(false).expect("no adapter yet, so one is attached");
    assert_eq!(attach.data_authority.bytes, record.bytes);
    assert_eq!(attach.kind, AdapterKind::AppData);
}

#[test]
fn scenario_b_wrong_asset_kind_fails() {
    let (record, _) = canonical_identity_address();
    let accounts = identity_accounts(record, 5, system_id());
    let r = process_instruction(&program(), &accounts, &uri_data(0, "u"));
    assert_eq!(r.err(), Some(ProgramError::Custom(4)));
}

#[test]
fn scenario_c_address_one_bump_off_fails() {
    let (_, bump) = canonical_identity_address();
    let program_key = solana_program::pubkey::Pubkey::new_from_array(program().bytes);
    let mut lower = bump;
    let off = loop {
        lower -= 1;
        let b = [lower];
        let seeds: [&[u8]; 3] = [b"agent_identity", &[9u8; 32], &b];
        if let Ok(k) = solana_program::pubkey::Pubkey::create_program_address(&seeds, &program_key) {
            break Address::new(k.to_bytes());
        }
    };
    let accounts = identity_accounts(off, 1, system_id());
    let r = process_instruction(&program(), &accounts, &uri_data(0, "u"));
    assert_eq!(r.err(), Some(ProgramError::Custom(2)));
}

#[test]
fn scenario_d_unassigned_opcode_fails() {
    let (record, _) = canonical_identity_address();
    let accounts = identity_accounts(record, 1, system_id());
    let r = process_instruction(&program(), &accounts, &uri_data(7, "u"));
    assert_eq!(r.err(), Some(ProgramError::Custom(1)));
}

#[test]
fn empty_instruction_data_fails() {
    let (record, _) = canonical_identity_address();
    let accounts = identity_accounts(record, 1, system_id());
    let r = process_instruction(&program(), &accounts, &[]);
    assert_eq!(r.err(), Some(ProgramError::Custom(1)));
}

#[test]
fn wrong_system_program_fails_before_asset_checks_pass() {
    let (record, _) = canonical_identity_address();
    let accounts = identity_accounts(record, 1, addr(3));
    let r = process_instruction(&program(), &accounts, &uri_data(0, "u"));
    assert_eq!(r.err(), Some(ProgramError::Custom(0)));
}

#[test]
fn wrong_core_program_fails() {
    let (record, _) = canonical_identity_address();
    let mut accounts = identity_accounts(record, 1, system_id());
    accounts[5].key = addr(8);
    let r = process_instruction(&program(), &accounts, &uri_data(0, "u"));
    assert_eq!(r.err(), Some(ProgramError::Custom(3)));
}

#[test]
fn asset_not_owned_by_registry_fails() {
    let (record, _) = canonical_identity_address();
    let mut accounts = identity_accounts(record, 1, system_id());
    accounts[1].owner = addr(8);
    let r = process_instruction(&program(), &accounts, &uri_data(0, "u"));
    assert_eq!(r.err(), Some(ProgramError::Custom(4)));
}

#[test]
fn empty_asset_data_fails() {
    let (record, _) = canonical_identity_address();
    let mut accounts = identity_accounts(record, 1, system_id());
    accounts[1].data = vec![];
    let r = process_instruction(&program(), &accounts, &uri_data(0, "u"));
    assert_eq!(r.err(), Some(ProgramError::Custom(4)));
}

#[test]
fn too_few_accounts_fail() {
    let (record, _) = canonical_identity_address();
    let mut accounts = identity_accounts(record, 1, system_id());
    accounts.truncate(6);
    let r = process_instruction(&program(), &accounts, &uri_data(0, "u"));
    assert_eq!(r.err(), Some(ProgramError::NotEnoughAccountKeys));
}

#[test]
fn derived_address_check_runs_before_asset_check() {
    let accounts = identity_accounts(addr(1), 5, addr(3));
    let r = process_instruction(&program(), &accounts, &uri_data(0, "u"));
    assert_eq!(r.err(), Some(ProgramError::Custom(2)));
}

#[test]
fn uri_is_read_after_the_header() {
    let text = RegisterIdentityV1Args::agent_registration_uri(&uri_data(0, "ipfs://agent")).expect("valid");
    assert_eq!(text, "ipfs://agent");
}

#[test]
fn truncated_uri_fails() {
    let mut d = uri_data(0, "ipfs://agent");
    d.pop();
    assert!(RegisterIdentityV1Args::agent_registration_uri(&d).is_err());
    let (record, _) = canonical_identity_address();
    let accounts = identity_accounts(record, 1, system_id());
    let r = process_instruction(&program(), &accounts, &d);
    assert_eq!(r.err(), Some(ProgramError::Custom(1)));
}

#[test]
fn invalid_utf8_uri_fails() {
    let mut d = vec![0u8; 8];
    d.extend_from_slice(&2u32.to_le_bytes());
    d.extend_from_slice(&[0xff, 0xfe]);
    assert!(RegisterIdentityV1Args::agent_registration_uri(&d).is_err());
}

#[test]
fn empty_uri_is_accepted() {
    let text = RegisterIdentityV1Args::agent_registration_uri(&uri_data(0, "")).expect("valid");
    assert_eq!(text, "");
}

#[test]
fn derivation_is_deterministic() {
    let a = find_program_address(&identity_seeds(&asset()), &program());
    let b = find_program_address(&identity_seeds(&asset()), &program());
    let (a, b) = (a.unwrap(), b.unwrap());
    assert_eq!(a.0.bytes, b.0.bytes);
    assert_eq!(a.1, b.1);
}

#[test]
fn derivation_agrees_with_host_search() {
    let program_key = solana_program::pubkey::Pubkey::new_from_array(program().bytes);
    let (key, bump) = solana_program::pubkey::Pubkey::find_program_address(&[b"agent_identity", &[9u8; 32]], &program_key);
    let (a, b) = canonical_identity_address();
    assert_eq!(a.bytes, key.to_bytes());
    assert_eq!(b, bump);
    assert_ne!(a.bytes, [9u8; 32]);
}

#[test]
fn verification_accepts_only_the_derived_address() {
    let (a, bump) = canonical_identity_address();
    assert_eq!(verify_derivation(&a, &program(), &identity_seeds(&asset())), Some(bump));
    assert_eq!(verify_derivation(&addr(1), &program(), &identity_seeds(&asset())), None);
    assert_eq!(verify_derivation(&a, &addr(6), &identity_seeds(&asset())), None);
}

#[test]
fn address_equality_compares_bytes() {
    let mut b = [5u8; 32];
    assert!(Address::new(b).same_as(&Address::new(b)));
    b[31] = 6;
    assert!(!Address::new([5u8; 32]).same_as(&Address::new(b)));
}
