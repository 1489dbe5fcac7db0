//! Requests, responses and the rules by which a request becomes calls.

use crate::config::Config;
use crate::entries::distinct_keys;
use crate::errors::{IncorrectChainIdError, NoURLForChainIdError, Rejection};
use crate::evm::{
    AccountOverride, CallKind, CallRawRequest, CallRawResult, CallTraceNode, EvmSetup,
    InstructionResult, StorageOverride, FORK_BLOCK_GAS_LIMIT, FORK_GAS_PRICE, TRACE_VERBOSITY,
};
use crate::types::{AccessList, Address, Bytes, Log, H256};
use crate::uint::{parse_digits, parse_spec, ParseUintError, Uint};
use vstd::prelude::*;

verus! {

/// A 256-bit integer that is written as decimal text or, after `0x`, as
/// hexadecimal text.
#[derive(Debug, Clone, Copy, PartialEq, Eq, Structural)]
pub struct PermissiveUint(pub Uint);

/// Storage of a state override. `Full` replaces the storage of the account:
/// a slot that is not listed reads zero. `Diff` is laid over the forked
/// storage: a slot that is not listed reads as before. The slots are a map:
/// `entries::put` fills them so that no slot stands twice.
#[derive(Debug, Clone, PartialEq, Eq)]
pub enum State {
    Full { state: Vec<(H256, PermissiveUint)> },
    Diff { state_diff: Vec<(H256, PermissiveUint)> },
}

/// What to change in an account before a simulation. Any field may be absent.
#[derive(Debug, Clone, PartialEq, Eq)]
pub struct StateOverride {
    pub balance: Option<PermissiveUint>,
    pub nonce: Option<u64>,
    pub code: Option<Bytes>,
    pub state: Option<State>,
}

/// A transaction to simulate.
#[derive(Debug, Clone, PartialEq, Eq)]
pub struct SimulationRequest {
    pub chain_id: u64,
    pub from: Address,
    pub to: Address,
    pub data: Option<Bytes>,
    pub gas_limit: u64,
    pub value: Option<PermissiveUint>,
    pub access_list: Option<AccessList>,
    pub block_number: Option<u64>,
    /// The overrides by account, in the order in which they are applied. They
    /// are a map: `entries::put` fills them so that no account stands twice.
    pub state_overrides: Option<Vec<(Address, StateOverride)>>,
    pub format_trace: Option<bool>,
}

/// One call frame of a response.
#[derive(Debug, Clone, Copy, PartialEq, Eq)]
pub struct CallTrace {
    pub call_type: CallKind,
    pub from: Address,
    pub to: Address,
    pub value: Uint,
}

/// What a simulation returned.
#[derive(Debug, Clone, PartialEq, Eq)]
pub struct SimulationResponse {
    pub simulation_id: u64,
    pub gas_used: u64,
    /// Block in whose context the call ran.
    pub block_number: u64,
    pub success: bool,
    pub trace: Vec<CallTrace>,
    pub formatted_trace: Option<String>,
    pub logs: Vec<Log>,
    pub exit_reason: InstructionResult,
    pub return_data: Bytes,
}

/// Request for a session: an EVM that keeps its state between simulations.
#[derive(Debug, Clone, Copy, PartialEq, Eq, Structural)]
pub struct StatefulSimulationRequest {
    pub chain_id: u64,
    pub gas_limit: u64,
    pub block_number: Option<u64>,
}

/// Answer to the request for a session: its id.
#[derive(Debug, Clone, Copy, PartialEq, Eq, Structural)]
pub struct StatefulSimulationResponse {
    pub stateful_simulation_id: u128,
}

/// Answer to the release of a session.
#[derive(Debug, Clone, Copy, PartialEq, Eq, Structural)]
pub struct StatefulSimulationEndResponse {
    pub success: bool,
}

/// The calls that one request stands for: the overrides first, in their
/// order, then the call.
#[derive(Debug, Clone, PartialEq, Eq)]
pub struct Execution {
    pub overrides: Vec<AccountOverride>,
    pub call: CallRawRequest,
    /// Whether the call leaves its state changes in the EVM.
    pub commit: bool,
    /// Gas limit of a committing call.
    pub gas_limit: u64,
}

/// Id that every response carries.
pub const SIMULATION_ID: u64 = 1;

impl PermissiveUint {
    /// Reads a number from its text.
    pub fn parse(text: &str) -> (r: Result<PermissiveUint, ParseUintError>)
        ensures
            match r {
                Ok(v) => parse_spec(vstd::utf8::encode_utf8(text@)) == Ok::<nat, ParseUintError>(
                    v.0@,
                ),
                Err(e) => parse_spec(vstd::utf8::encode_utf8(text@)) == Err::<nat, ParseUintError>(
                    e,
                ),
            },
    {
        let bytes = text.as_bytes();
        let from: usize = if bytes.len() >= 2 && bytes[0] == 0x30 && bytes[1] == 0x78 {
            2
        } else {
            0
        };
        assert(bytes@.skip(0) == bytes@);
        match parse_digits(bytes, from, from == 2) {
            Ok(v) => Ok(PermissiveUint(v)),
            Err(e) => Err(e),
        }
    }
}

impl State {
    /// The listed slots with their values.
    pub open spec fn entries(self) -> Seq<(H256, PermissiveUint)> {
        match self {
            State::Full { state } => state@,
            State::Diff { state_diff } => state_diff@,
        }
    }

    /// The listed slots with their values as plain numbers.
    pub open spec fn slots(self) -> Seq<(H256, Uint)> {
        self.entries().map_values(|entry: (H256, PermissiveUint)| (entry.0, entry.1.0))
    }
}

impl SimulationRequest {
    /// The state overrides are maps: no account stands twice in them, and no
    /// slot twice in the storage of an account.
    pub open spec fn well_formed(self) -> bool {
        &&& distinct_keys(override_entries(self.state_overrides))
        &&& forall|i: int|
            0 <= i < override_entries(self.state_overrides).len() ==> ((#[trigger] override_entries(
                self.state_overrides,
            )[i]).1.state matches Some(state) ==> distinct_keys(state.entries()))
    }
}

impl StorageOverride {
    /// The storage override that a request's `State` asks for.
    pub fn from(value: State) -> (r: StorageOverride)
        ensures
            r.diff == (value is Diff),
            r.slots@ == value.slots(),
    {
        let (entries, diff) = match value {
            State::Full { state } => (state, false),
            State::Diff { state_diff } => (state_diff, true),
        };
        let mut slots: Vec<(H256, Uint)> = Vec::new();
        let mut i: usize = 0;
        while i < entries.len()
            invariant
                i <= entries@.len(),
                entries@ == value.entries(),
                slots@ == value.slots().take(i as int),
            decreases entries@.len() - i,
        {
            let entry = entries[i];
            slots.push((entry.0, entry.1.0));
            assert(slots@ =~= value.slots().take(i + 1));
            i += 1;
        }
        assert(slots@ =~= value.slots());
        StorageOverride { slots, diff }
    }
}

impl CallTrace {
    /// The frame of a response that stands for a frame of the execution.
    pub fn from(item: CallTraceNode) -> (r: CallTrace)
        ensures
            r == call_trace(item),
    {
        CallTrace { call_type: item.kind, from: item.caller, to: item.address, value: item.value }
    }
}

/// What a response shows of a call frame: how it was entered, who called, who
/// was called, and the value sent along.
pub open spec fn call_trace(item: CallTraceNode) -> CallTrace {
    CallTrace { call_type: item.kind, from: item.caller, to: item.address, value: item.value }
}

/// The balance that a state override asks for.
pub open spec fn number_of(value: Option<PermissiveUint>) -> Option<Uint> {
    match value {
        Some(v) => Some(v.0),
        None => None,
    }
}

/// `out` is the change that the override `request` asks for in the account `address`.
pub open spec fn override_matches(
    out: AccountOverride,
    address: Address,
    request: StateOverride,
) -> bool {
    &&& out.address == address
    &&& out.balance == number_of(request.balance)
    &&& out.nonce == request.nonce
    &&& out.code == request.code
    &&& match request.state {
        Some(state) => out.storage matches Some(storage) && storage.diff == (state is Diff)
            && storage.slots@ == state.slots(),
        None => out.storage is None,
    }
}

/// The entries of the overrides of a request, none where it has none.
pub open spec fn override_entries(overrides: Option<Vec<(Address, StateOverride)>>) -> Seq<
    (Address, StateOverride),
> {
    match overrides {
        Some(entries) => entries@,
        None => Seq::empty(),
    }
}

/// `call` is the call that `transaction` describes: what the request leaves
/// out is zero, empty or false.
pub open spec fn call_matches(call: CallRawRequest, transaction: SimulationRequest) -> bool {
    &&& call.from == transaction.from
    &&& call.to == transaction.to
    &&& call.value@ == match transaction.value {
        Some(v) => v.0@,
        None => 0,
    }
    &&& match transaction.data {
        Some(data) => call.data == data,
        None => call.data.0@ == Seq::<u8>::empty(),
    }
    &&& match transaction.access_list {
        Some(list) => call.access_list == list,
        None => call.access_list.0@ == Seq::<crate::types::AccessListItem>::empty(),
    }
    &&& call.format_trace == match transaction.format_trace {
        Some(f) => f,
        None => false,
    }
}

/// `plan` holds the calls that `transaction` stands for: one override for each
/// entry of its state overrides, in their order, then its call.
pub open spec fn executes(plan: Execution, transaction: SimulationRequest, commit: bool) -> bool {
    &&& plan.commit == commit
    &&& plan.gas_limit == transaction.gas_limit
    &&& call_matches(plan.call, transaction)
    &&& plan.overrides@.len() == override_entries(transaction.state_overrides).len()
    &&& forall|i: int|
        0 <= i < plan.overrides@.len() ==> override_matches(
            #[trigger] plan.overrides@[i],
            override_entries(transaction.state_overrides)[i].0,
            override_entries(transaction.state_overrides)[i].1,
        )
}

/// The calls of a request whose overrides are maps change each account once,
/// and each slot of an account once.
pub proof fn lemma_run_keeps_maps(plan: Execution, transaction: SimulationRequest, commit: bool)
    requires
        executes(plan, transaction, commit),
        transaction.well_formed(),
    ensures
        forall|i: int, j: int|
            0 <= i < j < plan.overrides@.len() ==> plan.overrides@[i].address
                != plan.overrides@[j].address,
        forall|i: int|
            0 <= i < plan.overrides@.len() ==> ((#[trigger] plan.overrides@[i]).storage matches Some(
                storage,
            ) ==> distinct_keys(storage.slots@)),
{
    let source = override_entries(transaction.state_overrides);
    assert forall|i: int, j: int| 0 <= i < j < plan.overrides@.len() implies plan.overrides@[i].address
        != plan.overrides@[j].address by {
        assert(override_matches(plan.overrides@[i], source[i].0, source[i].1));
        assert(override_matches(plan.overrides@[j], source[j].0, source[j].1));
    }
    assert forall|i: int| 0 <= i < plan.overrides@.len() implies ((
    #[trigger] plan.overrides@[i]).storage matches Some(storage) ==> distinct_keys(
        storage.slots@,
    )) by {
        assert(override_matches(plan.overrides@[i], source[i].0, source[i].1));
        if let Some(storage) = plan.overrides@[i].storage {
            let state = source[i].1.state->Some_0;
            assert forall|a: int, b: int| 0 <= a < b < storage.slots@.len() implies storage.slots@[a].0
                != storage.slots@[b].0 by {
                assert(storage.slots@[a].0 == state.entries()[a].0);
                assert(storage.slots@[b].0 == state.entries()[b].0);
            }
        }
    }
}

/// Turns one override of a request into the change of the account.
pub fn account_override(address: Address, request: StateOverride) -> (out: AccountOverride)
    ensures
        override_matches(out, address, request),
{
    let balance = match request.balance {
        Some(b) => Some(b.0),
        None => None,
    };
    let storage = match request.state {
        Some(state) => Some(StorageOverride::from(state)),
        None => None,
    };
    AccountOverride { address, balance, nonce: request.nonce, code: request.code, storage }
}

/// Turns a request into the calls to make on an EVM: one override for
/// each entry of its state overrides, in their order, then its call.
pub fn run(transaction: SimulationRequest, commit: bool) -> (plan: Execution)
    ensures
        executes(plan, transaction, commit),
{
    let ghost source = override_entries(transaction.state_overrides);
    let mut overrides: Vec<AccountOverride> = Vec::new();
    match transaction.state_overrides {
        Some(entries) => {
            for entry in it: entries
                invariant
                    it.seq() == source,
                    overrides@.len() == it.index(),
                    forall|i: int|
                        0 <= i < overrides@.len() ==> override_matches(
                            #[trigger] overrides@[i],
                            source[i].0,
                            source[i].1,
                        ),
            {
                let (address, request) = entry;
                overrides.push(account_override(address, request));
            }
        },
        None => {},
    }
    let value = match transaction.value {
        Some(v) => v.0,
        None => Uint::zero(),
    };
    let data = match transaction.data {
        Some(d) => d,
        None => Bytes::new(),
    };
    let access_list = match transaction.access_list {
        Some(list) => list,
        None => AccessList::new(),
    };
    let format_trace = match transaction.format_trace {
        Some(f) => f,
        None => false,
    };
    let call = CallRawRequest {
        from: transaction.from,
        to: transaction.to,
        value,
        data,
        access_list,
        format_trace,
    };
    Execution { overrides, call, commit, gas_limit: transaction.gas_limit }
}

/// Upstream node that a chain is forked from where none is configured.
pub open spec fn default_fork_url(chain_id: u64) -> Option<Seq<char>> {
    if chain_id == 1 {
        Some("https://mainnet.infura.io/v3/1e4b56ea3f614db99ad4c551cb4fde40"@)
    } else if chain_id == 5 {
        Some("https://goerli.infura.io/v3/1e4b56ea3f614db99ad4c551cb4fde40"@)
    } else if chain_id == 11155111 {
        Some("https://sepolia.infura.io/v3/1e4b56ea3f614db99ad4c551cb4fde40"@)
    } else if chain_id == 137 {
        Some("https://polygon-mainnet.g.alchemy.com/v2/demo"@)
    } else if chain_id == 80001 {
        Some("https://polygon-mumbai.g.alchemy.com/v2/demo"@)
    } else if chain_id == 43114 {
        Some("https://api.avax.network/ext/bc/C/rpc"@)
    } else if chain_id == 43113 {
        Some("https://api.avax-test.network/ext/bc/C/rpc"@)
    } else if chain_id == 250 {
        Some("https://rpcapi.fantom.network/"@)
    } else if chain_id == 4002 {
        Some("https://rpc.testnet.fantom.network/"@)
    } else if chain_id == 100 {
        Some("https://rpc.xdaichain.com/"@)
    } else if chain_id == 56 {
        Some("https://bsc-dataseed.binance.org/"@)
    } else if chain_id == 97 {
        Some("https://data-seed-prebsc-1-s1.binance.org:8545/"@)
    } else if chain_id == 42161 {
        Some("https://arb1.arbitrum.io/rpc"@)
    } else if chain_id == 421613 {
        Some("https://goerli-rollup.arbitrum.io/rpc"@)
    } else if chain_id == 10 {
        Some("https://mainnet.optimism.io/"@)
    } else if chain_id == 420 {
        Some("https://goerli.optimism.io/"@)
    } else {
        None
    }
}

/// Upstream node to fork from: the configured one whatever the chain, else
/// the default of the chain.
pub open spec fn fork_url_of(configured: Option<String>, chain_id: u64) -> Option<Seq<char>> {
    match configured {
        Some(url) => Some(url@),
        None => default_fork_url(chain_id),
    }
}

/// The default upstream node of a chain.
pub fn chain_id_to_fork_url(chain_id: u64) -> (r: Result<String, Rejection>)
    ensures
        match default_fork_url(chain_id) {
            Some(url) => r is Ok && r->Ok_0@ == url,
            None => r == Err::<String, Rejection>(Rejection::NoUrlForChainId(NoURLForChainIdError)),
        },
{
    match chain_id {
        // ethereum
        1 => Ok("https://mainnet.infura.io/v3/1e4b56ea3f614db99ad4c551cb4fde40".to_string()),
        5 => Ok("https://goerli.infura.io/v3/1e4b56ea3f614db99ad4c551cb4fde40".to_string()),
        11155111 => Ok("https://sepolia.infura.io/v3/1e4b56ea3f614db99ad4c551cb4fde40".to_string()),
        // polygon
        137 => Ok("https://polygon-mainnet.g.alchemy.com/v2/demo".to_string()),
        80001 => Ok("https://polygon-mumbai.g.alchemy.com/v2/demo".to_string()),
        // avalanche
        43114 => Ok("https://api.avax.network/ext/bc/C/rpc".to_string()),
        43113 => Ok("https://api.avax-test.network/ext/bc/C/rpc".to_string()),
        // fantom
        250 => Ok("https://rpcapi.fantom.network/".to_string()),
        4002 => Ok("https://rpc.testnet.fantom.network/".to_string()),
        // gnosis
        100 => Ok("https://rpc.xdaichain.com/".to_string()),
        // bsc
        56 => Ok("https://bsc-dataseed.binance.org/".to_string()),
        97 => Ok("https://data-seed-prebsc-1-s1.binance.org:8545/".to_string()),
        // arbitrum
        42161 => Ok("https://arb1.arbitrum.io/rpc".to_string()),
        421613 => Ok("https://goerli-rollup.arbitrum.io/rpc".to_string()),
        // optimism
        10 => Ok("https://mainnet.optimism.io/".to_string()),
        420 => Ok("https://goerli.optimism.io/".to_string()),
        _ => Err(Rejection::NoUrlForChainId(NoURLForChainIdError)),
    }
}

/// `setup` builds the EVM for a request on `chain_id`: forked from the
/// configured node or the chain's default, pinned to `block_number`, with
/// tracing and caching on, gas for free and no limit on the block's gas.
pub open spec fn setup_matches(
    setup: EvmSetup,
    config: Config,
    chain_id: u64,
    block_number: Option<u64>,
    gas_limit: u64,
) -> bool {
    &&& Some(setup.fork_url@) == fork_url_of(config.fork_url, chain_id)
    &&& setup.fork_block_number == block_number
    &&& setup.gas_limit == gas_limit
    &&& setup.tracing
    &&& setup.etherscan_key == config.etherscan_key
    &&& setup.enable_caching
    &&& setup.gas_price == FORK_GAS_PRICE
    &&& setup.block_gas_limit == FORK_BLOCK_GAS_LIMIT
    &&& setup.trace_verbosity == TRACE_VERBOSITY
}

/// Decides with what the EVM of a request is built. A configured fork URL
/// wins over the table of the chains; without one, a chain that the table
/// lacks is rejected.
pub fn evm_setup(config: Config, chain_id: u64, block_number: Option<u64>, gas_limit: u64) -> (r:
    Result<EvmSetup, Rejection>)
    ensures
        match fork_url_of(config.fork_url, chain_id) {
            Some(_) => r is Ok && setup_matches(
                r->Ok_0,
                config,
                chain_id,
                block_number,
                gas_limit,
            ),
            None => r == Err::<EvmSetup, Rejection>(
                Rejection::NoUrlForChainId(NoURLForChainIdError),
            ),
        },
{
    let fork_url = match config.fork_url {
        Some(url) => url,
        None => match chain_id_to_fork_url(chain_id) {
            Ok(url) => url,
            Err(e) => {
                return Err(e);
            },
        },
    };
    Ok(
        EvmSetup {
            fork_url,
            fork_block_number: block_number,
            gas_limit,
            tracing: true,
            etherscan_key: config.etherscan_key,
            enable_caching: true,
            gas_price: FORK_GAS_PRICE,
            block_gas_limit: FORK_BLOCK_GAS_LIMIT,
            trace_verbosity: TRACE_VERBOSITY,
        },
    )
}

/// Holds the chain of the EVM against the chain that the request names.
pub fn check_chain_id(evm_chain_id: Uint, chain_id: u64) -> (r: Result<(), Rejection>)
    ensures
        evm_chain_id@ == chain_id ==> r is Ok,
        evm_chain_id@ != chain_id ==> r == Err::<(), Rejection>(
            Rejection::IncorrectChainId(IncorrectChainIdError()),
        ),
{
    if evm_chain_id.eq_u64(chain_id) {
        Ok(())
    } else {
        Err(Rejection::IncorrectChainId(IncorrectChainIdError()))
    }
}

/// The call frames of a response: those of the execution in their order.
pub open spec fn flattened(trace: Option<crate::evm::CallTraceArena>) -> Seq<CallTrace> {
    match trace {
        Some(arena) => arena.arena@.map_values(|item: CallTraceNode| call_trace(item)),
        None => Seq::empty(),
    }
}

/// `response` reports `result`.
pub open spec fn reports(response: SimulationResponse, result: CallRawResult) -> bool {
    &&& response.simulation_id == SIMULATION_ID
    &&& response.gas_used == result.gas_used
    &&& response.block_number == result.block_number
    &&& response.success == result.success
    &&& response.trace@ == flattened(result.trace)
    &&& response.formatted_trace == result.formatted_trace
    &&& response.logs == result.logs
    &&& response.exit_reason == result.exit_reason
    &&& response.return_data == result.return_data
}

/// A response reports a success exactly where the interpreter ended without
/// a revert or a fault, and it names the block in whose context the call ran.
pub proof fn lemma_response_follows_interpreter(
    raw: crate::evm::RawCallResult,
    formatted_trace: Option<String>,
    result: CallRawResult,
    response: SimulationResponse,
)
    requires
        crate::evm::shapes(result, raw, formatted_trace),
        reports(response, result),
    ensures
        response.success == raw.exit_reason.is_ok(),
        response.exit_reason == raw.exit_reason,
        response.block_number == raw.block_number,
        response.simulation_id == 1,
{
}

/// Shapes the response from the result of the call.
pub fn respond(result: CallRawResult) -> (response: SimulationResponse)
    ensures
        reports(response, result),
{
    let mut trace: Vec<CallTrace> = Vec::new();
    match &result.trace {
        Some(arena) => {
            let mut i: usize = 0;
            while i < arena.arena.len()
                invariant
                    i <= arena.arena@.len(),
                    result.trace == Some(*arena),
                    trace@ == flattened(result.trace).take(i as int),
                decreases arena.arena@.len() - i,
            {
                trace.push(CallTrace::from(arena.arena[i]));
                assert(trace@ =~= flattened(result.trace).take(i + 1));
                i += 1;
            }
            assert(trace@ =~= flattened(result.trace));
        },
        None => {},
    }
    SimulationResponse {
        simulation_id: SIMULATION_ID,
        gas_used: result.gas_used,
        block_number: result.block_number,
        success: result.success,
        trace,
        formatted_trace: result.formatted_trace,
        logs: result.logs,
        exit_reason: result.exit_reason,
        return_data: result.return_data,
    }
}

/// How one request is simulated: the EVM to build, the chain it must turn
/// out to be on, and the calls to make.
#[derive(Debug, Clone, PartialEq, Eq)]
pub struct Simulation {
    pub setup: EvmSetup,
    pub chain_id: u64,
    pub execution: Execution,
}

/// Plans the simulation of one request: a fresh EVM at the request's block,
/// and the request's calls without commit.
pub fn simulate(transaction: SimulationRequest, config: Config) -> (r: Result<
    Simulation,
    Rejection,
>)
    ensures
        match fork_url_of(config.fork_url, transaction.chain_id) {
            Some(_) => r is Ok && setup_matches(
                r->Ok_0.setup,
                config,
                transaction.chain_id,
                transaction.block_number,
                transaction.gas_limit,
            ) && r->Ok_0.chain_id == transaction.chain_id && executes(
                r->Ok_0.execution,
                transaction,
                false,
            ),
            None => r == Err::<Simulation, Rejection>(
                Rejection::NoUrlForChainId(NoURLForChainIdError),
            ),
        },
{
    let chain_id = transaction.chain_id;
    let setup = match evm_setup(
        config,
        transaction.chain_id,
        transaction.block_number,
        transaction.gas_limit,
    ) {
        Ok(setup) => setup,
        Err(e) => {
            return Err(e);
        },
    };
    Ok(Simulation { setup, chain_id, execution: run(transaction, false) })
}

/// Plans the EVM of a session.
pub fn simulate_stateful_new(request: StatefulSimulationRequest, config: Config) -> (r: Result<
    EvmSetup,
    Rejection,
>)
    ensures
        match fork_url_of(config.fork_url, request.chain_id) {
            Some(_) => r is Ok && setup_matches(
                r->Ok_0,
                config,
                request.chain_id,
                request.block_number,
                request.gas_limit,
            ),
            None => r == Err::<EvmSetup, Rejection>(
                Rejection::NoUrlForChainId(NoURLForChainIdError),
            ),
        },
{
    evm_setup(config, request.chain_id, request.block_number, request.gas_limit)
}

} // verus!
