//! The block executor as the service sets it up, and what the service makes
//! of the results of offloaded work.

use crate::error::{Error, ErrorKind};
use crate::transaction::TransactionOutput;
use std::sync::Arc;
use vstd::prelude::*;
use vstd::string::*;

verus! {

/// The leading words of the message that reports a lost simulation; the
/// worker's failure follows them.
pub const SIMULATION_FAILURE: &'static str = "Simulation failure: ";

/// `num_cpus::get`: the number of logical CPUs available to the process.
/// Its documentation promises at least one.
#[verifier::external_body]
pub(crate) fn available_cpus() -> (cpus: usize)
    ensures
        cpus >= 1,
{
    num_cpus::get()
}

/// A pool of worker threads of the `rayon` crate. The library makes the
/// pool and hands it on; it never looks inside.
#[verifier::external_type_specification]
#[verifier::external_body]
pub struct ExThreadPool(rayon::ThreadPool);

/// The number of threads that a pool was asked for when it was built.
/// The pool starts at most that many, and chooses their number itself
/// where it was asked for none.
pub uninterp spec fn threads_asked(pool: rayon::ThreadPool) -> nat;

/// `rayon::ThreadPoolBuilder::build` after `num_threads(threads)`: a new
/// pool of worker threads that was asked for `threads` threads, or the
/// message of the failure to start it.
#[verifier::external_body]
fn build_thread_pool(threads: usize) -> (r: Result<rayon::ThreadPool, String>)
    ensures
        r matches Ok(pool) ==> threads_asked(pool) == threads,
{
    match rayon::ThreadPoolBuilder::new().num_threads(threads).build() {
        Ok(pool) => Ok(pool),
        Err(e) => Err(e.to_string()),
    }
}

/// How the engine is to execute a block.
#[derive(Clone, Copy, Debug, PartialEq, Eq, Structural)]
pub struct BlockExecutorConfig {
    /// The number of transactions that may execute at a time.
    pub concurrency_level: usize,
    /// The most gas that a block may use, if there is a limit.
    pub block_gas_limit: Option<u64>,
}

impl BlockExecutorConfig {
    /// The configuration with the given concurrency and no limit on the
    /// block.
    pub fn new_no_block_limit(concurrency_level: usize) -> (config: BlockExecutorConfig)
        ensures
            config.concurrency_level == concurrency_level,
            config.block_gas_limit is None,
    {
        BlockExecutorConfig { concurrency_level, block_gas_limit: None }
    }
}

/// The parallel block executor: its pool of worker threads, the number of
/// threads that the pool was asked for, and the concurrency that the
/// executor asks of the engine.
#[derive(Debug)]
pub struct MoveExecutor {
    pub pool: Arc<rayon::ThreadPool>,
    pub threads: usize,
    pub concurrency: usize,
}

impl MoveExecutor {
    /// The executor for `cpus` CPUs, given what starting its pool gave: the
    /// executor with that pool, asking the engine for half as many
    /// transactions at a time as there are CPUs, or else an error with the
    /// message of the failure.
    pub fn from_pool(built: Result<rayon::ThreadPool, String>, cpus: usize) -> (r: Result<
        MoveExecutor,
        Error,
    >)
        ensures
            match built {
                Ok(pool) => {
                    &&& r matches Ok(executor)
                    &&& *executor.pool == pool
                    &&& executor.threads == cpus
                    &&& executor.concurrency == cpus / 2
                },
                Err(message) => r matches Err(e) && e@ == (ErrorKind::Other, message@),
            },
    {
        match built {
            Ok(pool) => Ok(
                MoveExecutor { pool: Arc::new(pool), threads: cpus, concurrency: cpus / 2 },
            ),
            Err(message) => Err(Error::Other(message)),
        }
    }

    /// The executor for a machine with `cpus` CPUs: a pool that was asked
    /// for a thread for each of them, and half as many transactions at a
    /// time. Asked for no thread, the pool chooses the number of its
    /// threads itself. It fails only where the pool cannot be started.
    pub fn with_cpus(cpus: usize) -> (r: Result<MoveExecutor, Error>)
        ensures
            match r {
                Ok(executor) => {
                    &&& threads_asked(*executor.pool) == cpus
                    &&& executor.threads == cpus
                    &&& executor.concurrency == cpus / 2
                },
                Err(e) => e@.0 == ErrorKind::Other,
            },
    {
        MoveExecutor::from_pool(build_thread_pool(cpus), cpus)
    }

    /// The executor for this machine: a pool with a thread for each
    /// available CPU, and half as many transactions at a time. It fails
    /// only where the pool cannot be started.
    pub fn new() -> (r: Result<MoveExecutor, Error>)
        ensures
            match r {
                Ok(executor) => {
                    &&& executor.threads >= 1
                    &&& threads_asked(*executor.pool) == executor.threads
                    &&& executor.concurrency == executor.threads / 2
                },
                Err(e) => e@.0 == ErrorKind::Other,
            },
    {
        MoveExecutor::with_cpus(available_cpus())
    }

    /// How the engine is to execute a block for this executor: with the
    /// executor's concurrency and no limit on the block.
    pub fn block_executor_config(&self) -> (config: BlockExecutorConfig)
        ensures
            config.concurrency_level == self.concurrency,
            config.block_gas_limit is None,
    {
        BlockExecutorConfig::new_no_block_limit(self.concurrency)
    }

    /// The result of executing a block, given what the engine returned: the
    /// outputs, one for each transaction of the block, or the message of
    /// its failure.
    pub fn execute_transaction_block_parallel(
        &self,
        executed: Result<Vec<TransactionOutput>, String>,
    ) -> (r: Result<Vec<TransactionOutput>, Error>)
        ensures
            match executed {
                Ok(outputs) => r == Ok::<Vec<TransactionOutput>, Error>(outputs),
                Err(message) => r matches Err(e) && e@ == (ErrorKind::ExecutionFailure, message@),
            },
    {
        match executed {
            Ok(outputs) => Ok(outputs),
            Err(message) => Err(Error::ExecutionFailure(message)),
        }
    }
}

/// The result of simulating a transaction on a worker, given how the worker
/// ended: it ran to its end, or it was lost with the given message. What
/// the simulation computed is of no account.
pub fn run_move_transaction_simulation(joined: Result<(), String>) -> (r: Result<(), Error>)
    ensures
        match joined {
            Ok(_) => r is Ok,
            Err(message) => r matches Err(e) && e@ == (
                ErrorKind::TaskFailure,
                SIMULATION_FAILURE@ + message@,
            ),
        },
{
    match joined {
        Ok(_) => Ok(()),
        Err(message) => Err(
            Error::TaskFailure(String::from_str(SIMULATION_FAILURE).concat(message.as_str())),
        ),
    }
}

} // verus!
