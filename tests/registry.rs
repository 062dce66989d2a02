use subnet_registry::balances::Balances;
use subnet_registry::registry::Pallet;
use subnet_registry::types::{Error, Config, SubnetStatus, TaskType};

const SUBNET_DEPOSIT: u64 = 1000;
const MAX_SCHEMA_SIZE: u32 = 10_000;

fn config() -> Config {
    Config {
        max_schema_size: MAX_SCHEMA_SIZE,
        max_uri_size: 1_000,
        max_subnets: 100,
        max_owned_subnets: 100,
        subnet_deposit: SUBNET_DEPOSIT,
    }
}

fn new_test_ext() -> (Pallet, Balances) {
    let mut balances = Balances::new();
    balances.set_free_balance(1, 100000);
    balances.set_free_balance(2, 100000);
    balances.set_free_balance(3, 100000);
    (Pallet::new(config()), balances)
}

fn create_default(
    registry: &mut Pallet,
    balances: &mut Balances,
    who: u64,
    task_type: TaskType,
    uri: &[u8],
    weight: u8,
    miner: u64,
    validator: u64,
) -> Result<u32, Error> {
    registry.create_subnet(
        who,
        balances,
        task_type,
        b"{}".to_vec(),
        b"{}".to_vec(),
        uri.to_vec(),
        weight,
        miner,
        validator,
    )
}

#[test]
fn create_subnet_works() {
    let (mut registry, mut balances) = new_test_ext();
    let owner = 1u64;
    let emission_weight = 10u8;
    assert_eq!(
        registry.create_subnet(
            owner,
            &mut balances,
            TaskType::CodeGen,
            b"{}".to_vec(),
            b"{}".to_vec(),
            b"ipfs://QmExample".to_vec(),
            emission_weight,
            1000,
            2000,
        ),
        Ok(0)
    );

    assert_eq!(registry.next_subnet_id(), 1);
    assert_eq!(registry.subnet_count(), 1);

    let subnet = registry.subnets(0).unwrap();
    assert_eq!(subnet.id, 0);
    assert_eq!(subnet.task_type, TaskType::CodeGen);
    assert_eq!(subnet.owner, owner);
    assert_eq!(subnet.status, SubnetStatus::Active);
    assert_eq!(subnet.emission_weight, emission_weight);

    let owner_subnets = registry.owner_subnets(owner);
    assert_eq!(owner_subnets.len(), 1);
    assert_eq!(owner_subnets[0], 0);
}

#[test]
fn create_subnet_reserves_deposit() {
    let (mut registry, mut balances) = new_test_ext();
    let owner = 1u64;
    let initial_balance = balances.free_balance(owner);
    assert!(create_default(
        &mut registry,
        &mut balances,
        owner,
        TaskType::ImageGen,
        b"ipfs://QmExample",
        5,
        1000,
        2000
    )
    .is_ok());
    let final_balance = balances.free_balance(owner);
    assert_eq!(initial_balance - final_balance, SUBNET_DEPOSIT);
    assert_eq!(balances.reserved_balance(owner), SUBNET_DEPOSIT);
}

#[test]
fn create_subnet_fails_with_invalid_emission_weight() {
    let (mut registry, mut balances) = new_test_ext();
    let r = create_default(
        &mut registry,
        &mut balances,
        1,
        TaskType::CodeGen,
        b"ipfs://QmExample",
        101,
        1000,
        2000,
    );
    assert_eq!(r, Err(Error::InvalidEmissionWeight));
    assert_eq!(registry.subnet_count(), 0);
    assert_eq!(registry.next_subnet_id(), 0);
    assert_eq!(balances.free_balance(1), 100000);
}

#[test]
fn create_subnet_fails_with_schema_too_large() {
    let (mut registry, mut balances) = new_test_ext();
    let large_schema = vec![0u8; (MAX_SCHEMA_SIZE + 1) as usize];
    let r = registry.create_subnet(
        1,
        &mut balances,
        TaskType::CodeGen,
        large_schema,
        b"{}".to_vec(),
        b"ipfs://QmExample".to_vec(),
        10,
        1000,
        2000,
    );
    assert_eq!(r, Err(Error::SchemaTooLarge));
    assert_eq!(registry.subnet_count(), 0);
    assert_eq!(balances.free_balance(1), 100000);
}

#[test]
fn create_subnet_fails_with_insufficient_balance() {
    let (mut registry, mut balances) = new_test_ext();
    let r = create_default(
        &mut registry,
        &mut balances,
        99,
        TaskType::CodeGen,
        b"ipfs://QmExample",
        10,
        1000,
        2000,
    );
    assert_eq!(r, Err(Error::InsufficientBalance));
    assert_eq!(registry.subnet_count(), 0);
    assert_eq!(registry.next_subnet_id(), 0);
    assert_eq!(registry.get_owner_subnet_count(99), 0);
}

#[test]
fn update_subnet_works() {
    let (mut registry, mut balances) = new_test_ext();
    let owner = 1u64;
    assert!(create_default(
        &mut registry,
        &mut balances,
        owner,
        TaskType::CodeGen,
        b"ipfs://QmExample",
        10,
        1000,
        2000
    )
    .is_ok());

    let new_weight = 20u8;
    assert_eq!(
        registry.update_subnet(owner, 0, None, None, None, Some(new_weight), None, None),
        Ok(())
    );

    let subnet = registry.subnets(0).unwrap();
    assert_eq!(subnet.emission_weight, new_weight);
}

#[test]
fn update_subnet_fails_if_not_owner() {
    let (mut registry, mut balances) = new_test_ext();
    assert!(create_default(
        &mut registry,
        &mut balances,
        1,
        TaskType::CodeGen,
        b"ipfs://QmExample",
        10,
        1000,
        2000
    )
    .is_ok());

    assert_eq!(
        registry.update_subnet(2, 0, None, None, None, Some(20), None, None),
        Err(Error::NotAuthorized)
    );
    assert_eq!(registry.subnets(0).unwrap().emission_weight, 10);
}

#[test]
fn update_subnet_fails_if_retired() {
    let (mut registry, mut balances) = new_test_ext();
    let owner = 1u64;
    assert!(create_default(
        &mut registry,
        &mut balances,
        owner,
        TaskType::CodeGen,
        b"ipfs://QmExample",
        10,
        1000,
        2000
    )
    .is_ok());
    assert_eq!(registry.retire_subnet(owner, 0), Ok(()));

    assert_eq!(
        registry.update_subnet(owner, 0, None, None, None, Some(20), None, None),
        Err(Error::SubnetAlreadyRetired)
    );
    assert_eq!(registry.subnets(0).unwrap().emission_weight, 10);
}

#[test]
fn retire_subnet_works() {
    let (mut registry, mut balances) = new_test_ext();
    let owner = 1u64;
    assert!(create_default(
        &mut registry,
        &mut balances,
        owner,
        TaskType::CodeGen,
        b"ipfs://QmExample",
        10,
        1000,
        2000
    )
    .is_ok());

    assert_eq!(registry.retire_subnet(owner, 0), Ok(()));

    let subnet = registry.subnets(0).unwrap();
    assert_eq!(subnet.status, SubnetStatus::Retired);
    assert!(!registry.is_subnet_active(0));
}

#[test]
fn retire_subnet_fails_if_not_owner() {
    let (mut registry, mut balances) = new_test_ext();
    assert!(create_default(
        &mut registry,
        &mut balances,
        1,
        TaskType::CodeGen,
        b"ipfs://QmExample",
        10,
        1000,
        2000
    )
    .is_ok());

    assert_eq!(registry.retire_subnet(2, 0), Err(Error::NotAuthorized));
    assert!(registry.is_subnet_active(0));
}

#[test]
fn retire_subnet_fails_if_already_retired() {
    let (mut registry, mut balances) = new_test_ext();
    let owner = 1u64;
    assert!(create_default(
        &mut registry,
        &mut balances,
        owner,
        TaskType::CodeGen,
        b"ipfs://QmExample",
        10,
        1000,
        2000
    )
    .is_ok());
    assert_eq!(registry.retire_subnet(owner, 0), Ok(()));

    assert_eq!(registry.retire_subnet(owner, 0), Err(Error::SubnetAlreadyRetired));
    assert_eq!(registry.subnets(0).unwrap().status, SubnetStatus::Retired);
}

#[test]
fn subnet_exists_works() {
    let (mut registry, mut balances) = new_test_ext();
    assert!(!registry.subnet_exists(0));

    assert!(create_default(
        &mut registry,
        &mut balances,
        1,
        TaskType::CodeGen,
        b"ipfs://QmExample",
        10,
        1000,
        2000
    )
    .is_ok());

    assert!(registry.subnet_exists(0));
    assert!(!registry.subnet_exists(1));
}

#[test]
fn multiple_subnets_can_be_created() {
    let (mut registry, mut balances) = new_test_ext();
    assert_eq!(
        create_default(
            &mut registry,
            &mut balances,
            1,
            TaskType::CodeGen,
            b"ipfs://QmExample1",
            10,
            1000,
            2000
        ),
        Ok(0)
    );
    assert_eq!(
        create_default(
            &mut registry,
            &mut balances,
            2,
            TaskType::ImageGen,
            b"ipfs://QmExample2",
            15,
            1500,
            2500
        ),
        Ok(1)
    );
    assert_eq!(
        create_default(
            &mut registry,
            &mut balances,
            1,
            TaskType::ProteinFolding,
            b"ipfs://QmExample3",
            20,
            2000,
            3000
        ),
        Ok(2)
    );

    assert_eq!(registry.subnet_count(), 3);
    assert_eq!(registry.next_subnet_id(), 3);
    assert_eq!(registry.get_owner_subnet_count(1), 2);
    assert_eq!(registry.get_owner_subnet_count(2), 1);
}

#[test]
fn custom_task_type_works() {
    let (mut registry, mut balances) = new_test_ext();
    let custom_type =
        TaskType::custom(b"AUDIO_TRANSCRIPTION".to_vec()).expect("bounded vec creation");

    assert!(create_default(
        &mut registry,
        &mut balances,
        1,
        custom_type.clone(),
        b"ipfs://QmExample",
        10,
        1000,
        2000
    )
    .is_ok());

    let subnet = registry.subnets(0).unwrap();
    assert_eq!(subnet.task_type, custom_type);
}
