//! Deploying a contract into an in-memory EVM database.
//!
//! The init code is built and checked here; running it is the EVM's business.
//! What the EVM reports is named by [`create_execution`], and everything the
//! deployment decides is stated in terms of that name.

use crate::bytecode::{build_deployment_code, deployment_code, MAX_RUNTIME_SIZE};
use revm::db::{CacheDB, EmptyDB};
use revm::primitives::{Address, Bytes, ExecutionResult, Output, TxKind, U256};
use revm::Evm;
use vstd::prelude::*;

verus! {

/// `revm::primitives::Address`, a 20-byte account address, taken as an opaque
/// value: the library hands addresses on and never looks inside one.
#[verifier::external_type_specification]
#[verifier::external_body]
pub struct ExAddress(revm::primitives::Address);

/// `revm::db::CacheDB`, the in-memory account database that transactions run
/// against, taken as an opaque value: what it holds is the EVM's business.
#[verifier::external_type_specification]
#[verifier::external_body]
#[verifier::reject_recursive_types(ExtDB)]
pub struct ExCacheDB<ExtDB>(revm::db::CacheDB<ExtDB>);

/// `revm::db::EmptyDBTyped`, the backing store of a [`CacheDB`] that has
/// nothing behind it, taken as an opaque value.
#[verifier::external_type_specification]
#[verifier::external_body]
#[verifier::reject_recursive_types(E)]
pub struct ExEmptyDBTyped<E>(revm::db::EmptyDBTyped<E>);

/// Gas limit of a deployment transaction.
pub const DEPLOY_GAS_LIMIT: u64 = 10_000_000;

/// Gas price, in wei, of a deployment transaction.
pub const DEPLOY_GAS_PRICE: u64 = 1;

/// How the EVM disposed of a transaction.
#[derive(Debug, Clone, Copy, PartialEq, Eq)]
pub enum Execution {
    /// A create transaction ran to completion; holds the address of the new
    /// contract where the EVM reports one.
    Created(Option<Address>),
    /// A call ran to completion.
    Returned,
    /// Execution ended in `REVERT`; the gas that was left is not spent.
    Reverted,
    /// Execution broke off on an error and spent all its gas.
    Halted,
    /// The EVM gave an error in place of a result: the transaction did not
    /// pass validation, or the EVM itself failed.
    Rejected,
}

/// What the EVM makes of a create transaction that `caller` sends to the
/// database `db` with the given init code, gas limit and gas price, no value,
/// and an otherwise default environment.
pub uninterp spec fn create_execution(
    db: CacheDB<EmptyDB>,
    caller: Address,
    init_code: Seq<u8>,
    gas_limit: u64,
    gas_price: u64,
) -> Execution;

/// Runs a create transaction against `db` and commits the state it leaves.
///
/// Calls `Evm::transact_commit` on an EVM built by `Evm::builder` over `db`,
/// with a default environment in which only the caller, the transaction kind
/// (create), the input data, the gas limit and the gas price are set. The
/// contract claims that the outcome is determined by the database and these
/// arguments, and names it; it claims nothing about the database afterwards.
#[verifier::external_body]
fn execute_create(
    db: &mut CacheDB<EmptyDB>,
    caller: Address,
    init_code: Vec<u8>,
    gas_limit: u64,
    gas_price: u64,
) -> (execution: Execution)
    ensures
        execution == create_execution(*old(db), caller, init_code@, gas_limit, gas_price),
{
    match Evm::builder().with_db(db).modify_tx_env(|tx| {
        tx.caller = caller;
        tx.transact_to = TxKind::Create;
        tx.data = Bytes::from(init_code);
        tx.gas_limit = gas_limit;
        tx.gas_price = U256::from(gas_price);
    }).build().transact_commit() {
        Ok(ExecutionResult::Success { output: Output::Create(_, address), .. }) => {
            Execution::Created(address)
        },
        Ok(ExecutionResult::Success { .. }) => Execution::Returned,
        Ok(ExecutionResult::Revert { .. }) => Execution::Reverted,
        Ok(ExecutionResult::Halt { .. }) => Execution::Halted,
        Err(_) => Execution::Rejected,
    }
}

/// The address at which `execution` left a new contract, if it did.
pub open spec fn deployed_address(execution: Execution) -> Option<Address> {
    match execution {
        Execution::Created(Some(address)) => Some(address),
        _ => None,
    }
}

/// Message of the error for runtime code longer than [`MAX_RUNTIME_SIZE`].
pub open spec fn runtime_too_large() -> Seq<char> {
    "Runtime code too large"@
}

/// Message of the error for a create transaction that left no contract.
pub open spec fn creation_failed() -> Seq<char> {
    "Contract creation failed"@
}

/// Whether `result` is what a deployment reports for `execution`: the new
/// contract's address where there is one, the creation error otherwise.
pub open spec fn reports(result: Result<Address, String>, execution: Execution) -> bool {
    match deployed_address(execution) {
        Some(address) => result == Ok::<Address, String>(address),
        None => result is Err && result->Err_0@ == creation_failed(),
    }
}

/// Turns the outcome of a create transaction into the result of a
/// deployment.
pub fn creation_result(execution: Execution) -> (result: Result<Address, String>)
    ensures
        reports(result, execution),
{
    match execution {
        Execution::Created(Some(address)) => Ok(address),
        _ => Err("Contract creation failed".to_owned()),
    }
}

/// Deploys `bytecode` as the runtime code of a new contract created by
/// `caller`, and returns the contract's address.
///
/// Runtime code longer than [`MAX_RUNTIME_SIZE`] is refused before anything
/// runs, and the database is left as it was. Otherwise the init code
/// [`deployment_code`] is sent as a create transaction with
/// [`DEPLOY_GAS_LIMIT`] and [`DEPLOY_GAS_PRICE`], and the result reports what
/// the EVM made of it.
pub fn deploy_contract(db: &mut CacheDB<EmptyDB>, caller: Address, bytecode: &[u8]) -> (result:
    Result<Address, String>)
    ensures
        bytecode@.len() > MAX_RUNTIME_SIZE ==> result is Err && result->Err_0@
            == runtime_too_large() && *final(db) == *old(db),
        bytecode@.len() <= MAX_RUNTIME_SIZE ==> reports(
            result,
            create_execution(
                *old(db),
                caller,
                deployment_code(bytecode@),
                DEPLOY_GAS_LIMIT,
                DEPLOY_GAS_PRICE,
            ),
        ),
{
    match build_deployment_code(bytecode) {
        None => Err("Runtime code too large".to_owned()),
        Some(init_code) => {
            let execution: Execution = execute_create(
                db,
                caller,
                init_code,
                DEPLOY_GAS_LIMIT,
                DEPLOY_GAS_PRICE,
            );
            creation_result(execution)
        },
    }
}

} // verus!
