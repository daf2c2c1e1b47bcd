use evm_bench::bytecode::build_deployment_code;
use evm_bench::deploy::{
    creation_result, deploy_contract, Execution, DEPLOY_GAS_LIMIT, DEPLOY_GAS_PRICE,
};
use revm::db::{CacheDB, EmptyDB};
use revm::primitives::{
    AccountInfo, Address, Bytes, ExecutionResult, Output, TxKind, KECCAK_EMPTY, U256,
};
use revm::Evm;

/// Runtime code that returns the 32-byte word 42.
const RETURN_42: [u8; 10] = [0x60, 0x2a, 0x60, 0x00, 0x52, 0x60, 0x20, 0x60, 0x00, 0xf3];

fn caller() -> Address {
    Address::repeat_byte(0x11)
}

fn database_with_balance(balance: U256) -> CacheDB<EmptyDB> {
    let mut db = CacheDB::new(EmptyDB::default());
    db.insert_account_info(
        caller(),
        AccountInfo { balance, nonce: 0, code_hash: KECCAK_EMPTY, code: None },
    );
    db
}

fn code_at(db: &CacheDB<EmptyDB>, address: Address) -> Vec<u8> {
    let account = db.accounts.get(&address).expect("account exists");
    let code = db.contracts.get(&account.info.code_hash).expect("code exists");
    code.original_bytes().to_vec()
}

fn call(db: &mut CacheDB<EmptyDB>, contract: Address) -> Vec<u8> {
    let mut evm = Evm::builder()
        .with_db(db)
        .modify_tx_env(|tx| {
            tx.caller = caller();
            tx.transact_to = TxKind::Call(contract);
            tx.data = Bytes::new();
            tx.gas_limit = 1_000_000;
        })
        .build();
    match evm.transact().expect("the call is valid").result {
        ExecutionResult::Success { output: Output::Call(bytes), .. } => bytes.to_vec(),
        other => panic!("the call failed: {other:?}"),
    }
}

#[test]
fn deployment_constants() {
    assert_eq!(DEPLOY_GAS_LIMIT, 10_000_000);
    assert_eq!(DEPLOY_GAS_PRICE, 1);
}

#[test]
fn deploy_contract_installs_the_runtime_code() {
    let mut db = database_with_balance(U256::MAX);
    let address = deploy_contract(&mut db, caller(), &RETURN_42).unwrap();
    assert_eq!(address, caller().create(0));
    assert_eq!(code_at(&db, address), RETURN_42.to_vec());
}

#[test]
fn deployed_contract_runs() {
    let mut db = database_with_balance(U256::MAX);
    let address = deploy_contract(&mut db, caller(), &RETURN_42).unwrap();
    let mut word = vec![0u8; 32];
    word[31] = 42;
    assert_eq!(call(&mut db, address), word);
}

#[test]
fn deploy_contract_twice_gives_two_contracts() {
    let mut db = database_with_balance(U256::MAX);
    let first = deploy_contract(&mut db, caller(), &RETURN_42).unwrap();
    let second = deploy_contract(&mut db, caller(), &[0x00]).unwrap();
    assert_eq!(first, caller().create(0));
    assert_eq!(second, caller().create(1));
    assert_eq!(code_at(&db, first), RETURN_42.to_vec());
    assert_eq!(code_at(&db, second), vec![0x00]);
}

#[test]
fn deploy_contract_with_two_byte_size() {
    let mut runtime = vec![0x5b; 300];
    runtime.push(0x00);
    let mut db = database_with_balance(U256::MAX);
    let address = deploy_contract(&mut db, caller(), &runtime).unwrap();
    assert_eq!(code_at(&db, address), runtime);
}

#[test]
fn deploy_contract_at_the_code_size_limit() {
    let runtime = vec![0x00; 24576];
    let mut db = database_with_balance(U256::MAX);
    let address = deploy_contract(&mut db, caller(), &runtime).unwrap();
    assert_eq!(code_at(&db, address), runtime);
}

#[test]
fn deploy_contract_over_the_code_size_limit_fails() {
    let runtime = vec![0x00; 24577];
    let mut db = database_with_balance(U256::MAX);
    assert_eq!(
        deploy_contract(&mut db, caller(), &runtime),
        Err("Contract creation failed".to_string())
    );
}

#[test]
fn deploy_contract_without_funds_fails() {
    let mut db = database_with_balance(U256::ZERO);
    assert_eq!(
        deploy_contract(&mut db, caller(), &RETURN_42),
        Err("Contract creation failed".to_string())
    );
    assert!(db.accounts.get(&caller().create(0)).is_none());
}

#[test]
fn deploy_contract_needs_the_gas_limit_paid_up_front() {
    let price = U256::from(DEPLOY_GAS_LIMIT) * U256::from(DEPLOY_GAS_PRICE);
    let mut poor = database_with_balance(price - U256::from(1));
    assert!(deploy_contract(&mut poor, caller(), &RETURN_42).is_err());
    let mut rich = database_with_balance(price);
    assert_eq!(deploy_contract(&mut rich, caller(), &RETURN_42), Ok(caller().create(0)));
}

#[test]
fn deployment_runs_the_documented_init_code() {
    let init_code = build_deployment_code(&RETURN_42).unwrap();
    let mut by_hand = database_with_balance(U256::MAX);
    let result = {
        let mut evm = Evm::builder()
            .with_db(&mut by_hand)
            .modify_tx_env(|tx| {
                tx.caller = caller();
                tx.transact_to = TxKind::Create;
                tx.data = Bytes::from(init_code);
                tx.gas_limit = DEPLOY_GAS_LIMIT;
                tx.gas_price = U256::from(DEPLOY_GAS_PRICE);
            })
            .build();
        evm.transact_commit().unwrap()
    };
    let mut by_library = database_with_balance(U256::MAX);
    let address = deploy_contract(&mut by_library, caller(), &RETURN_42).unwrap();
    match result {
        ExecutionResult::Success { output: Output::Create(_, created), .. } => {
            assert_eq!(created, Some(address))
        }
        other => panic!("creation failed: {other:?}"),
    }
    assert_eq!(
        by_hand.accounts.get(&caller()).unwrap().info.balance,
        by_library.accounts.get(&caller()).unwrap().info.balance
    );
}

#[test]
fn creation_result_of_a_created_contract() {
    let address = Address::repeat_byte(0x42);
    assert_eq!(creation_result(Execution::Created(Some(address))), Ok(address));
}

#[test]
fn creation_result_of_anything_else() {
    let failed = Err("Contract creation failed".to_string());
    assert_eq!(creation_result(Execution::Created(None)), failed);
    assert_eq!(creation_result(Execution::Returned), failed);
    assert_eq!(creation_result(Execution::Reverted), failed);
    assert_eq!(creation_result(Execution::Halted), failed);
    assert_eq!(creation_result(Execution::Rejected), failed);
}

#[test]
fn runtime_code_that_the_evm_refuses_is_no_deployment() {
    // Deployed code may not start with the byte 0xEF.
    let mut db = database_with_balance(U256::MAX);
    assert_eq!(
        deploy_contract(&mut db, caller(), &[0xef, 0x00]),
        Err("Contract creation failed".to_string())
    );
}
