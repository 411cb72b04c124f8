use agent_registry::account::AccountView;
use agent_registry::address::{find_program_address, Address};
use agent_registry::error::ProgramError;
use agent_registry::mpl_8004_identity::error::Mpl8004IdentityError;
use agent_registry::mpl_8004_identity::instruction::{Mpl8004IdentityInstruction, Mpl8004IdentityInstructionDiscriminant};
use agent_registry::mpl_8004_identity::processor::{create, process_instruction as process_8004, register_v1, CreateArgs, RegisterV1Args};
use agent_registry::mpl_8004_identity::state::{AgentIdentityV1, CollectionConfigV1, Key, MyAccount, MyData, MyPdaAccount};
use agent_registry::mpl_agent_reputation::instruction::MplAgentReputationInstructionDiscriminant;
use agent_registry::mpl_agent_reputation::processor::process_instruction as process_reputation;
use agent_registry::mpl_agent_reputation::state::{AgentReputationV1, Key as ReputationKey};
use agent_registry::mpl_agent_validation::error::MplAgentValidationError;
use agent_registry::mpl_agent_validation::processor::process_instruction as process_validation;
use agent_registry::mpl_agent_validation::state::{AgentValidationV1, CollectionValidationConfigV1};
use agent_registry::plan::AdapterKind;

fn core_id() -> Address {
    Address::new(mpl_core::ID.to_bytes())
}

fn system_id() -> Address {
    Address::new([0u8; 32])
}

fn addr(b: u8) -> Address {
    Address::new([b; 32])
}

fn account(key: Address, owner: Address, data: Vec<u8>) -> AccountView {
    AccountView { key, owner, is_signer: false, is_writable: true, lamports: 0, data }
}

fn pda(prefix: &[u8], entity: &Address, program: &Address) -> (Address, u8) {
    find_program_address(&vec![prefix.to_vec(), entity.bytes.to_vec()], program).expect("a bump derives")
}

fn bound_accounts(program: Address, record: Address, config: Address, authority: Option<Address>) -> Vec<AccountView> {
    vec![
        account(record, system_id(), vec![]),
        account(config, system_id(), vec![]),
        account(addr(9), core_id(), vec![1, 2, 3]),
        account(addr(10), core_id(), vec![5]),
        account(addr(4), system_id(), vec![]),
        account(authority.unwrap_or(program), program, vec![]),
        account(core_id(), addr(0), vec![]),
        account(system_id(), addr(0), vec![]),
    ]
}

#[test]
fn validation_registration_creates_record_and_config() {
    let program = addr(21);
    let (record, rb) = pda(b"agent_validation", &addr(9), &program);
    let (config, cb) = pda(b"collection_validation_config", &addr(10), &program);
    let accounts = bound_accounts(program, record, config, Some(addr(12)));
    let reg = process_validation(&program, &accounts, &[0u8; 8]).expect("goes through");
    assert_eq!(reg.creations.len(), 2);
    let mut first = vec![1u8, rb, 0, 0, 0, 0, 0, 0];
    first.extend_from_slice(&[9u8; 32]);
    let mut second = vec![2u8, cb, 0, 0, 0, 0, 0, 0];
    second.extend_from_slice(&[10u8; 32]);
    assert_eq!(reg.creations[0].image, first);
    assert_eq!(reg.creations[1].image, second);
    assert_eq!(reg.creations[1].address.bytes, config.bytes);
    assert_eq!(reg.creations[1].signer_seeds, vec![b"collection_validation_config".to_vec(), vec![10u8; 32], vec![cb]]);
    assert_eq!(reg.link.kind, AdapterKind::LinkedAppData);
    assert_eq!(reg.link.entity.bytes, [10u8; 32]);
    assert_eq!(reg.link.data_authority.bytes, config.bytes);
    assert_eq!(reg.link.acting_authority().bytes, [12u8; 32]);
}

#[test]
fn validation_config_address_is_checked() {
    let program = addr(21);
    let (record, _) = pda(b"agent_validation", &addr(9), &program);
    let (wrong, _) = pda(b"collection_validation_config", &addr(11), &program);
    let accounts = bound_accounts(program, record, wrong, None);
    assert_eq!(process_validation(&program, &accounts, &[0u8; 8]).err(), Some(ProgramError::Custom(2)));
}

#[test]
fn validation_arguments_must_fill_the_data() {
    let program = addr(21);
    let (record, _) = pda(b"agent_validation", &addr(9), &program);
    let (config, _) = pda(b"collection_validation_config", &addr(10), &program);
    let accounts = bound_accounts(program, record, config, None);
    assert_eq!(process_validation(&program, &accounts, &[0u8; 9]).err(), Some(ProgramError::Custom(1)));
    assert_eq!(process_validation(&program, &accounts, &[0u8; 7]).err(), Some(ProgramError::Custom(1)));
    assert_eq!(process_validation(&program, &accounts, &[]).err(), Some(ProgramError::Custom(1)));
    assert_eq!(process_validation(&program, &accounts, &[7, 0, 0, 0, 0, 0, 0, 0]).err(), Some(ProgramError::Custom(1)));
}

#[test]
fn registration_of_8004_identity_links_collection() {
    let program = addr(22);
    let (record, rb) = pda(b"agent_identity", &addr(9), &program);
    let (config, _) = pda(b"collection_config", &addr(10), &program);
    let accounts = bound_accounts(program, record, config, None);
    let args = RegisterV1Args::from_bytes(&[0u8; 8]).expect("8 bytes");
    let reg = register_v1(&program, &accounts, &args).expect("goes through");
    assert_eq!(reg.creations[0].image[0], 1);
    assert_eq!(reg.creations[0].image[1], rb);
    assert_eq!(reg.creations[1].image[0], 2);
    assert_eq!(reg.link.kind, AdapterKind::LinkedAppData);
    assert!(reg.link.authority.is_none());
    assert_eq!(reg.link.acting_authority().bytes, [4u8; 32]);
    let again = process_8004(&program, &accounts, &[0u8; 8]).expect("same plan");
    assert_eq!(again.creations[0].image, reg.creations[0].image);
}

#[test]
fn reputation_registration_guards_in_order() {
    let program = addr(23);
    let (record, rb) = pda(b"agent_reputation", &addr(9), &program);
    let mut accounts = vec![
        account(record, system_id(), vec![]),
        account(addr(9), core_id(), vec![1]),
        account(addr(10), program, vec![]),
        account(addr(4), system_id(), vec![]),
        account(program, program, vec![]),
        account(core_id(), addr(0), vec![]),
        account(system_id(), addr(0), vec![]),
    ];
    let reg = process_reputation(&program, &accounts, &[0u8; 8]).expect("goes through");
    assert_eq!(reg.creations[0].image[1], rb);
    assert_eq!(reg.link.collection.map(|c| c.bytes), Some([10u8; 32]));
    accounts[6].key = addr(3);
    assert_eq!(process_reputation(&program, &accounts, &[0u8; 8]).err(), Some(ProgramError::Custom(0)));
    accounts[5].key = addr(3);
    assert_eq!(process_reputation(&program, &accounts, &[0u8; 8]).err(), Some(ProgramError::Custom(3)));
    accounts[1].data = vec![2];
    assert_eq!(process_reputation(&program, &accounts, &[0u8; 8]).err(), Some(ProgramError::Custom(4)));
}

#[test]
fn linking_twice_attaches_once() {
    let program = addr(23);
    let (record, _) = pda(b"agent_reputation", &addr(9), &program);
    let accounts = vec![
        account(record, system_id(), vec![]),
        account(addr(9), core_id(), vec![1]),
        account(program, program, vec![]),
        account(addr(4), system_id(), vec![]),
        account(program, program, vec![]),
        account(core_id(), addr(0), vec![]),
        account(system_id(), addr(0), vec![]),
    ];
    let reg = process_reputation(&program, &accounts, &[0u8; 8]).expect("goes through");
    let mut adapters: Vec<[u8; 32]> = Vec::new();
    for _ in 0..2 {
        let found = adapters.contains(&reg.link.data_authority.bytes);
        if let Some(a) = reg.link.attachment(found) {
            adapters.push(a.data_authority.bytes);
        }
    }
    assert_eq!(adapters, vec![record.bytes]);
}

#[test]
fn create_builds_generic_account() {
    let program = addr(22);
    let accounts = vec![
        account(addr(30), system_id(), vec![]),
        account(addr(31), system_id(), vec![]),
        account(addr(32), system_id(), vec![]),
        account(system_id(), addr(0), vec![]),
    ];
    let args = CreateArgs::from_bytes(&[0, 0, 0x34, 0x12, 0x78, 0x56, 0x34, 0x12]).expect("8 bytes");
    assert_eq!(args.arg1, 0x1234);
    assert_eq!(args.arg2, 0x12345678);
    let c = create(&program, &accounts, &args).expect("goes through");
    assert_eq!(c.space, 48);
    assert!(c.signer_seeds.is_empty());
    let mut image = vec![3u8, 0, 0, 0, 0, 0, 0, 0];
    image.extend_from_slice(&[31u8; 32]);
    image.extend_from_slice(&[0x34, 0x12, 0, 0, 0x78, 0x56, 0x34, 0x12]);
    assert_eq!(c.image, image);
    let read = MyAccount::from_bytes(&c.image).expect("48 bytes");
    assert_eq!(read.data.field1, 0x1234);
    assert_eq!(read.data.field2, 0x12345678);
    assert_eq!(read.authority.bytes, [31u8; 32]);
    let mut wrong = accounts;
    wrong[3].key = addr(1);
    assert_eq!(create(&program, &wrong, &args).err(), Some(ProgramError::Custom(0)));
    assert_eq!(create(&program, &wrong[..3], &args).err(), Some(ProgramError::NotEnoughAccountKeys));
}

#[test]
fn short_buffers_do_not_decode() {
    assert!(AgentIdentityV1::from_bytes(&[0u8; 39]).is_none());
    assert!(CollectionConfigV1::from_bytes(&[0u8; 39]).is_none());
    assert!(AgentReputationV1::from_bytes(&[0u8; 39]).is_none());
    assert!(AgentValidationV1::from_bytes(&[0u8; 39]).is_none());
    assert!(CollectionValidationConfigV1::from_bytes(&[]).is_none());
    assert!(MyAccount::from_bytes(&[0u8; 47]).is_none());
    assert!(MyData::from_bytes(&[0u8; 7]).is_none());
    assert!(MyPdaAccount::from_bytes(&[0u8; 7]).is_none());
    assert!(CreateArgs::from_bytes(&[0u8; 7]).is_none());
    assert!(AgentIdentityV1::from_bytes(&[0u8; 40]).is_some());
    assert!(MyPdaAccount::from_bytes(&[0u8; 8]).is_some());
}

#[test]
fn record_sizes_are_word_multiples() {
    for len in [AgentIdentityV1::LEN, CollectionConfigV1::LEN, AgentReputationV1::LEN, AgentValidationV1::LEN,
        CollectionValidationConfigV1::LEN, MyAccount::BASE_LEN, MyData::LEN, MyPdaAccount::BASE_LEN] {
        assert_eq!(len % 8, 0);
    }
    assert_eq!(MyAccount::BASE_LEN, 48);
    assert_eq!(AgentIdentityV1::LEN, 40);
}

#[test]
fn record_round_trips_through_bytes() {
    let mut r = AgentValidationV1::zeroed();
    r.initialize(254, &addr(9));
    let bytes = r.to_bytes();
    assert_eq!(bytes.len(), 40);
    let back = AgentValidationV1::from_bytes(&bytes).expect("40 bytes");
    assert_eq!((back.key, back.bump, back._padding, back.asset.bytes), (1, 254, [0u8; 6], [9u8; 32]));
    let mut p = MyPdaAccount::from_bytes(&[0u8; 8]).expect("8 bytes");
    p.initialize(200);
    assert_eq!(p.to_bytes(), vec![4u8, 200, 0, 0, 0, 0, 0, 0]);
    let d = MyData::new(0xbeef, 7);
    assert_eq!(d.to_bytes(), vec![0xef, 0xbe, 0, 0, 7, 0, 0, 0]);
}

#[test]
fn record_prefixes_are_the_seed_strings() {
    assert_eq!(AgentIdentityV1::prefix(), b"agent_identity".to_vec());
    assert_eq!(CollectionConfigV1::prefix(), b"collection_config".to_vec());
    assert_eq!(AgentReputationV1::prefix(), b"agent_reputation".to_vec());
    assert_eq!(CollectionValidationConfigV1::prefix(), b"collection_validation_config".to_vec());
    assert_eq!(MyAccount::prefix(), b"my_account".to_vec());
    assert_eq!(MyPdaAccount::prefix(), b"my_pda_account".to_vec());
}

#[test]
fn error_codes_follow_declaration_order() {
    assert_eq!(Mpl8004IdentityError::InvalidSystemProgram.code(), 0);
    assert_eq!(Mpl8004IdentityError::InvalidCoreAsset.code(), 4);
    assert_eq!(MplAgentValidationError::from_code(2), Some(MplAgentValidationError::InvalidAccountData));
    assert_eq!(MplAgentValidationError::from_code(5), None);
    assert_eq!(ProgramError::from(MplAgentValidationError::InvalidMplCoreProgram), ProgramError::Custom(3));
}

#[test]
fn keys_convert_to_and_from_bytes() {
    assert_eq!(Key::from(2u8), Key::CollectionConfigV1);
    assert_eq!(Key::from(4u8), Key::MyPdaAccount);
    assert_eq!(Key::from(200u8), Key::Uninitialized);
    assert_eq!(u8::from(Key::AgentIdentityV1), 1);
    assert_eq!(ReputationKey::from(1u8), ReputationKey::AgentReputationV1);
    assert_eq!(ReputationKey::from(2u8), ReputationKey::Uninitialized);
}

#[test]
fn opcodes_decode() {
    assert_eq!(Mpl8004IdentityInstructionDiscriminant::try_from(0u8), Ok(Mpl8004IdentityInstructionDiscriminant::RegisterV1));
    assert_eq!(MplAgentReputationInstructionDiscriminant::try_from(1u8), Err(()));
    assert!(matches!(Mpl8004IdentityInstruction::unpack(&[0u8; 8]), Ok(Mpl8004IdentityInstruction::RegisterV1(_))));
    assert!(matches!(Mpl8004IdentityInstruction::unpack(&[7u8; 8]), Err(Mpl8004IdentityError::InvalidInstructionData)));
}
