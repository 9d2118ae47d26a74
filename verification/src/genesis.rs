//! Genesis: the parameters that the engine turns into the first write set,
//! and the steps that bring a store from closed to bootstrapped.

use crate::chain::{ChainId, NamedChain};
use crate::error::{Error, ErrorKind, UNEXPECTED_EVENT};
use crate::move_store::{
    batch_view, is_store_at, stageable, staged, MoveStore, Mutation, DEFAULT_CACHE_SIZE,
};
use crate::write_set::WriteSet;
use vstd::prelude::*;
use vstd::string::*;

verus! {

/// The number of smallest units in one coin: 10^8.
pub const UNITS_PER_COIN: u64 = 100_000_000;

/// Where the store of a deployment lies.
pub const MOVE_STORE_PATH: &'static str = "./move_store.db";

/// The number of validators in the genesis validator set.
pub const GENESIS_VALIDATOR_COUNT: usize = 4;

/// The stake of each genesis validator, in smallest units.
pub const GENESIS_VALIDATOR_STAKE: u64 = 1_000_000_000_000_000;

/// The address of an account: 32 bytes.
#[derive(Clone, Copy, Debug, PartialEq, Eq)]
pub struct AccountAddress {
    pub bytes: [u8; 32],
}

/// The bytes of the address that is zero but for its last two bytes.
pub open spec fn short_address(high: u8, low: u8) -> Seq<u8> {
    Seq::new(
        32,
        |i: int|
            if i == 30 {
                high
            } else if i == 31 {
                low
            } else {
                0u8
            },
    )
}

impl AccountAddress {
    /// The address with the given bytes.
    pub fn new(bytes: [u8; 32]) -> (address: AccountAddress)
        ensures
            address.bytes == bytes,
    {
        AccountAddress { bytes }
    }

    /// The address that is zero but for its last two bytes.
    pub fn short(high: u8, low: u8) -> (address: AccountAddress)
        ensures
            address.bytes@ == short_address(high, low),
    {
        let mut bytes = [0u8; 32];
        bytes[30] = high;
        bytes[31] = low;
        AccountAddress { bytes }
    }
}

/// An account that exists from genesis on, and its balance in smallest
/// units.
#[derive(Clone, Copy, Debug, PartialEq, Eq)]
pub struct AccountBalance {
    pub account_address: AccountAddress,
    pub balance: u64,
}

/// A vesting pool that exists from genesis on.
#[derive(Debug, PartialEq, Eq)]
pub struct VestingPoolsMap {
    pub admin_address: AccountAddress,
    pub vpool_locking_percentage: u8,
    pub vesting_numerators: Vec<u64>,
    pub vesting_denominator: u64,
    pub withdrawal_address: AccountAddress,
    pub shareholders: Vec<AccountAddress>,
    pub cliff_period_in_seconds: u64,
    pub period_duration_in_seconds: u64,
}

/// The economic and governance constants of a chain at genesis.
#[derive(Debug)]
pub struct GenesisConfiguration {
    pub allow_new_validators: bool,
    pub epoch_duration_secs: u64,
    pub is_test: bool,
    pub min_stake: u64,
    pub min_voting_threshold: u128,
    pub max_stake: u64,
    pub recurring_lockup_duration_secs: u64,
    pub required_proposer_stake: u64,
    pub rewards_apy_percentage: u64,
    pub voting_duration_secs: u64,
    pub voters: Vec<AccountAddress>,
    pub voting_power_increase_limit: u64,
    pub genesis_timestamp_in_microseconds: u64,
    pub employee_vesting_start: u64,
    pub employee_vesting_period_duration: u64,
    pub initial_features_override: Option<Vec<u8>>,
    pub randomness_config_override: Option<Vec<u8>>,
    pub jwk_consensus_config_override: Option<Vec<u8>>,
}

/// Whether `config` holds the constants that this service bootstraps a
/// chain with.
pub open spec fn is_genesis_config(config: GenesisConfiguration) -> bool {
    &&& config.allow_new_validators
    &&& config.epoch_duration_secs == 2 * 3600
    &&& !config.is_test
    &&& config.min_stake == 1_000_000 * UNITS_PER_COIN
    &&& config.min_voting_threshold == 2
    &&& config.max_stake == 50_000_000 * UNITS_PER_COIN
    &&& config.recurring_lockup_duration_secs == 30 * 24 * 3600
    &&& config.required_proposer_stake == 1_000_000 * UNITS_PER_COIN
    &&& config.rewards_apy_percentage == 1000
    &&& config.voting_duration_secs == 7 * 24 * 3600
    &&& config.voters@.len() == 3
    &&& config.voters@[0].bytes@ == short_address(0x0d, 0xd1)
    &&& config.voters@[1].bytes@ == short_address(0x0d, 0xd2)
    &&& config.voters@[2].bytes@ == short_address(0x0d, 0xd3)
    &&& config.voting_power_increase_limit == 30
    &&& config.genesis_timestamp_in_microseconds == 0
    &&& config.employee_vesting_start == 1663456089
    &&& config.employee_vesting_period_duration == 5 * 60
    &&& config.initial_features_override is None
    &&& config.randomness_config_override is None
    &&& config.jwk_consensus_config_override is None
}

/// The constants that this service bootstraps a chain with.
pub fn genesis_config() -> (config: GenesisConfiguration)
    ensures
        is_genesis_config(config),
{
    let mut voters: Vec<AccountAddress> = Vec::new();
    voters.push(AccountAddress::short(0x0d, 0xd1));
    voters.push(AccountAddress::short(0x0d, 0xd2));
    voters.push(AccountAddress::short(0x0d, 0xd3));
    GenesisConfiguration {
        allow_new_validators: true,
        epoch_duration_secs: 2 * 3600,
        is_test: false,
        min_stake: 1_000_000 * UNITS_PER_COIN,
        min_voting_threshold: 2,
        max_stake: 50_000_000 * UNITS_PER_COIN,
        recurring_lockup_duration_secs: 30 * 24 * 3600,
        required_proposer_stake: 1_000_000 * UNITS_PER_COIN,
        rewards_apy_percentage: 1000,
        voting_duration_secs: 7 * 24 * 3600,
        voters,
        voting_power_increase_limit: 30,
        genesis_timestamp_in_microseconds: 0,
        employee_vesting_start: 1663456089,
        employee_vesting_period_duration: 5 * 60,
        initial_features_override: None,
        randomness_config_override: None,
        jwk_consensus_config_override: None,
    }
}

/// What the engine is asked to compute the genesis write set from. For
/// the same request it computes the same write set.
#[derive(Debug)]
pub struct GenesisRequest {
    pub validator_count: Option<usize>,
    pub validator_stake: Option<u64>,
    pub accounts: Vec<AccountBalance>,
    pub vesting_pools: Vec<VestingPoolsMap>,
    pub chain_id: ChainId,
    pub genesis_config: GenesisConfiguration,
    pub engine_config: Vec<u8>,
}

/// The bytes that stand for the engine's own configuration at genesis: the
/// four letters of `test`.
pub open spec fn engine_config_text() -> Seq<u8> {
    seq![0x74u8, 0x65u8, 0x73u8, 0x74u8]
}

/// The genesis request for a test chain with `count` validators, the given
/// accounts and the given vesting pools.
pub fn generate_genesis(
    count: Option<usize>,
    accounts: Vec<AccountBalance>,
    vesting_pools: Vec<VestingPoolsMap>,
) -> (request: GenesisRequest)
    ensures
        request.validator_count == count,
        request.validator_stake == Some(GENESIS_VALIDATOR_STAKE),
        request.accounts == accounts,
        request.vesting_pools == vesting_pools,
        request.chain_id.id == NamedChain::Testing.spec_id(),
        is_genesis_config(request.genesis_config),
        request.engine_config@ == engine_config_text(),
{
    let mut engine_config: Vec<u8> = Vec::new();
    engine_config.push(0x74);
    engine_config.push(0x65);
    engine_config.push(0x73);
    engine_config.push(0x74);
    GenesisRequest {
        validator_count: count,
        validator_stake: Some(GENESIS_VALIDATOR_STAKE),
        accounts,
        vesting_pools,
        chain_id: ChainId::test(),
        genesis_config: genesis_config(),
        engine_config,
    }
}

/// How far the bootstrap of a store has come.
#[derive(Debug)]
pub enum GenesisState {
    /// The store is being opened; the request waits for it.
    Opening(GenesisRequest),
    /// The engine is computing the genesis write set.
    Generating,
    /// The store is applying the staged genesis batch.
    Committing,
    /// The store holds genesis, of this bootstrap or of an earlier one, and
    /// may serve requests.
    Ready,
    /// The bootstrap failed; the process must not serve requests.
    Failed,
}

/// What happened outside since the last step of a bootstrap.
#[derive(Debug)]
pub enum GenesisEvent {
    /// The store was opened or created and the key of the chain record
    /// looked up in it: the bytes that the store holds under the key, if
    /// the key is present, or else the message of the failure to open or
    /// to look up.
    Opened(Result<Option<Vec<u8>>, String>),
    /// The engine computed the genesis write set.
    Generated(WriteSet),
    /// The store applied the batch as a whole, or not at all.
    Committed(Result<(), String>),
}

/// What the caller of a bootstrap is to do next.
#[derive(Debug)]
pub enum GenesisAction {
    /// Ask the engine for the genesis write set of this request.
    Generate(GenesisRequest),
    /// Apply this batch to the store, atomically.
    Commit(Vec<Mutation>),
    /// Serve requests from this store.
    Serve(MoveStore),
    /// Abort startup with this error.
    Abort(Error),
    /// Nothing: the bootstrap had ended before.
    Nothing,
}

/// The bootstrap of one store.
#[derive(Debug)]
pub struct Genesis {
    pub store: MoveStore,
    pub state: GenesisState,
}

/// Begins the bootstrap of the deployment's store with the given accounts
/// and vesting pools: the store to open, and the request that waits for it.
///
/// Genesis is applied to a store once. A store in which the key of the
/// chain record is present, whatever it holds, was bootstrapped before:
/// [`Genesis::advance`] serves it as it is, and neither asks for the
/// request's write set nor commits anything.
pub fn create_genesis(accounts: Vec<AccountBalance>, vesting_pools: Vec<VestingPoolsMap>) -> (genesis:
    Genesis)
    ensures
        is_store_at(genesis.store, MOVE_STORE_PATH@, DEFAULT_CACHE_SIZE),
        genesis.state matches GenesisState::Opening(request) && {
            &&& request.validator_count == Some(GENESIS_VALIDATOR_COUNT)
            &&& request.validator_stake == Some(GENESIS_VALIDATOR_STAKE)
            &&& request.accounts == accounts
            &&& request.vesting_pools == vesting_pools
            &&& request.chain_id.id == NamedChain::Testing.spec_id()
            &&& is_genesis_config(request.genesis_config)
            &&& request.engine_config@ == engine_config_text()
        },
{
    let store = MoveStore::new(MOVE_STORE_PATH, None);
    let request = generate_genesis(Some(GENESIS_VALIDATOR_COUNT), accounts, vesting_pools);
    Genesis { store, state: GenesisState::Opening(request) }
}

impl Genesis {
    /// Takes the bootstrap one step further, given what happened outside.
    ///
    /// A store in which the key of the chain record is present is served
    /// as it is: the bootstrap is a no-op, whatever the request and
    /// whatever the key holds. For any other store the
    /// steps are strictly in order: open, generate, stage and commit. A
    /// failure at any of them, or an event out of order, ends the bootstrap
    /// in `Failed`; once it has ended, nothing moves it.
    pub fn advance(self, event: GenesisEvent) -> (next: (Genesis, GenesisAction))
        ensures
            next.0.store == self.store,
            next.1 is Generate ==> self.state is Opening && event == GenesisEvent::Opened(
                Ok(None),
            ),
            next.1 is Commit ==> self.state is Generating && event is Generated,
            match (self.state, event) {
                (GenesisState::Opening(request), GenesisEvent::Opened(Ok(None))) => {
                    &&& next.0.state is Generating
                    &&& next.1 == GenesisAction::Generate(request)
                },
                (GenesisState::Opening(_), GenesisEvent::Opened(Ok(Some(_)))) => {
                    &&& next.0.state is Ready
                    &&& next.1 == GenesisAction::Serve(self.store)
                },
                (GenesisState::Opening(_), GenesisEvent::Opened(Err(message))) => {
                    &&& next.0.state is Failed
                    &&& next.1 matches GenesisAction::Abort(e)
                    &&& e@ == (ErrorKind::StorageIo, message@)
                },
                (GenesisState::Generating, GenesisEvent::Generated(write_set)) => {
                    if stageable(write_set@) {
                        &&& next.0.state is Committing
                        &&& next.1 matches GenesisAction::Commit(batch)
                        &&& batch_view(batch@) == staged(write_set@)
                    } else {
                        &&& next.0.state is Failed
                        &&& next.1 matches GenesisAction::Abort(e)
                        &&& e@.0 == ErrorKind::Encode
                    }
                },
                (GenesisState::Committing, GenesisEvent::Committed(Ok(_))) => {
                    &&& next.0.state is Ready
                    &&& next.1 == GenesisAction::Serve(self.store)
                },
                (GenesisState::Committing, GenesisEvent::Committed(Err(message))) => {
                    &&& next.0.state is Failed
                    &&& next.1 matches GenesisAction::Abort(e)
                    &&& e@ == (ErrorKind::StorageIo, message@)
                },
                (GenesisState::Ready, _) => next.0.state is Ready && next.1 is Nothing,
                (GenesisState::Failed, _) => next.0.state is Failed && next.1 is Nothing,
                _ => {
                    &&& next.0.state is Failed
                    &&& next.1 matches GenesisAction::Abort(e)
                    &&& e@ == (ErrorKind::Other, UNEXPECTED_EVENT@)
                },
            },
    {
        let Genesis { store, state } = self;
        match (state, event) {
            (GenesisState::Opening(request), GenesisEvent::Opened(Ok(None))) => (
                Genesis { store, state: GenesisState::Generating },
                GenesisAction::Generate(request),
            ),
            (GenesisState::Opening(_), GenesisEvent::Opened(Ok(Some(_)))) => {
                let served = store.clone();
                (Genesis { store, state: GenesisState::Ready }, GenesisAction::Serve(served))
            },
            (GenesisState::Opening(_), GenesisEvent::Opened(Err(message))) => (
                Genesis { store, state: GenesisState::Failed },
                GenesisAction::Abort(Error::StorageIo(message)),
            ),
            (GenesisState::Generating, GenesisEvent::Generated(write_set)) => {
                let mut batch: Vec<Mutation> = Vec::new();
                match store.add_write_set(&mut batch, &write_set) {
                    Ok(_) => (
                        Genesis { store, state: GenesisState::Committing },
                        GenesisAction::Commit(batch),
                    ),
                    Err(e) => (Genesis { store, state: GenesisState::Failed }, GenesisAction::Abort(e)),
                }
            },
            (GenesisState::Committing, GenesisEvent::Committed(Ok(_))) => {
                let served = store.clone();
                (Genesis { store, state: GenesisState::Ready }, GenesisAction::Serve(served))
            },
            (GenesisState::Committing, GenesisEvent::Committed(Err(message))) => (
                Genesis { store, state: GenesisState::Failed },
                GenesisAction::Abort(Error::StorageIo(message)),
            ),
            (GenesisState::Ready, _) => (
                Genesis { store, state: GenesisState::Ready },
                GenesisAction::Nothing,
            ),
            (GenesisState::Failed, _) => (
                Genesis { store, state: GenesisState::Failed },
                GenesisAction::Nothing,
            ),
            _ => (
                Genesis { store, state: GenesisState::Failed },
                GenesisAction::Abort(Error::Other(String::from_str(UNEXPECTED_EVENT))),
            ),
        }
    }
}

} // verus!
