//! The endpoints from request to reply, on an interpreter that stands in for
//! the real one: it charges 21000 gas for a call and follows the block.

use transaction_simulator::bundle::{simulate_bundle, BlockStep, BundleSequencer};
use transaction_simulator::config::{load_config, Config};
use transaction_simulator::errors::{handle_rejection, ErrorMessage, Rejection, RejectionCauses};
use transaction_simulator::evm::{
    call_outcome, format_traces, override_outcome, CallKind, CallTraceArena, CallTraceNode,
    EvmSetup, InstructionResult, RawCallResult,
};
use transaction_simulator::sessions::{
    simulate_stateful, simulate_stateful_end, SharedSimulationState,
};
use transaction_simulator::simulation::{
    check_chain_id, respond, run, simulate, simulate_stateful_new, CallTrace, Execution,
    PermissiveUint, SimulationRequest, SimulationResponse, StatefulSimulationRequest,
};
use transaction_simulator::types::{Address, Bytes};
use transaction_simulator::uint::Uint;

struct Interpreter {
    chain_id: u64,
    block: u64,
    timestamp: u64,
    gas_limit: u64,
    committed: u64,
}

impl Interpreter {
    fn new(setup: &EvmSetup) -> Interpreter {
        // the upstream node decides the chain: every node here is on chain 1
        Interpreter {
            chain_id: 1,
            block: setup.fork_block_number.unwrap_or(17000000),
            timestamp: 1680000000,
            gas_limit: setup.gas_limit,
            committed: 0,
        }
    }

    fn execute(&mut self, plan: Execution) -> Result<SimulationResponse, Rejection> {
        for _account in plan.overrides {
            override_outcome(Ok(()))?;
        }
        if plan.commit {
            self.gas_limit = plan.gas_limit;
            self.committed += 1;
        }
        let exit_reason = if self.gas_limit < 21000 {
            InstructionResult::OutOfGas
        } else {
            InstructionResult::Stop
        };
        let raw = RawCallResult {
            exit_reason,
            gas_used: self.gas_limit.min(21000),
            block_number: self.block,
            result: Bytes(vec![]),
            logs: vec![],
            traces: Some(CallTraceArena {
                arena: vec![CallTraceNode {
                    kind: CallKind::Call,
                    caller: plan.call.from,
                    address: plan.call.to,
                    value: plan.call.value,
                }],
            }),
        };
        let rendered = vec![format!("[{}] call\n", raw.gas_used)];
        let formatted = format_traces(plan.call.format_trace, &rendered);
        Ok(respond(call_outcome(Ok(raw), formatted)?))
    }

    fn sequence(
        &mut self,
        sequencer: BundleSequencer,
        transactions: Vec<SimulationRequest>,
    ) -> Result<Vec<SimulationResponse>, Rejection> {
        let mut responses = Vec::new();
        for transaction in transactions {
            let step = sequencer
                .checked_next(&transaction, self.block, self.timestamp)
                .expect("the clock fits")?;
            if let BlockStep::Advance { block_number, timestamp } = step {
                self.block = block_number;
                self.timestamp = timestamp;
            }
            responses.push(self.execute(run(transaction, true))?);
        }
        Ok(responses)
    }
}

fn post_simulate(
    transaction: SimulationRequest,
    config: Config,
) -> Result<SimulationResponse, Rejection> {
    let plan = simulate(transaction, config)?;
    let mut evm = Interpreter::new(&plan.setup);
    check_chain_id(Uint::from_u64(evm.chain_id), plan.chain_id)?;
    evm.execute(plan.execution)
}

fn post_simulate_bundle(
    transactions: Vec<SimulationRequest>,
    config: Config,
) -> Result<Vec<SimulationResponse>, Rejection> {
    let plan = simulate_bundle(&transactions, config)?;
    let mut evm = Interpreter::new(&plan.setup);
    check_chain_id(Uint::from_u64(evm.chain_id), plan.chain_id)?;
    evm.sequence(plan.sequencer, transactions)
}

fn reply(rejection: Rejection) -> ErrorMessage {
    handle_rejection(&RejectionCauses::of(rejection))
}

fn address(text: &str) -> Address {
    let mut bytes = [0u8; 20];
    for i in 0..20 {
        bytes[i] = u8::from_str_radix(&text[2 + 2 * i..4 + 2 * i], 16).unwrap();
    }
    Address(bytes)
}

fn transaction(chain_id: u64, to: &str, gas_limit: u64, block_number: u64) -> SimulationRequest {
    SimulationRequest {
        chain_id,
        from: address("0xd8dA6BF26964aF9D7eEd9e03E53415D37aA96045"),
        to: address(to),
        data: None,
        gas_limit,
        value: Some(PermissiveUint::parse("100000").unwrap()),
        access_list: None,
        block_number: Some(block_number),
        state_overrides: None,
        format_trace: None,
    }
}

fn bundle_item(to: &str, block_number: u64) -> SimulationRequest {
    SimulationRequest {
        chain_id: 1,
        from: address("0x93621dca56fe26cdee86e4f6b18e116e9758ff11"),
        to: address(to),
        data: Some(Bytes(vec![0x79, 0x6b, 0x89, 0xb9])),
        gas_limit: 5000000,
        value: None,
        access_list: None,
        block_number: Some(block_number),
        state_overrides: None,
        format_trace: None,
    }
}

fn defaults() -> Config {
    load_config(None, None, None, None).unwrap()
}

#[test]
fn simple_transfer() {
    let response = post_simulate(
        transaction(1, "0x95222290dd7278aa3ddd389cc1e1d165cc4bafe5", 21000, 16784600),
        defaults(),
    )
    .unwrap();
    assert!(response.success);
    assert_eq!(response.gas_used, 21000);
    assert_eq!(response.block_number, 16784600);
    assert_eq!(response.simulation_id, 1);
    assert_eq!(response.formatted_trace, None);
    assert_eq!(
        response.trace,
        vec![CallTrace {
            call_type: CallKind::Call,
            from: address("0xd8dA6BF26964aF9D7eEd9e03E53415D37aA96045"),
            to: address("0x95222290dd7278aa3ddd389cc1e1d165cc4bafe5"),
            value: Uint::from_u64(100000),
        }]
    );
}

#[test]
fn transfer_with_formatted_trace() {
    let mut request = transaction(1, "0x95222290dd7278aa3ddd389cc1e1d165cc4bafe5", 21000, 16784600);
    request.format_trace = Some(true);
    let response = post_simulate(request, defaults()).unwrap();
    assert_eq!(response.formatted_trace, Some("[21000] call\n".to_string()));
}

#[test]
fn underfunded_gas() {
    let response = post_simulate(
        transaction(1, "0x66fc62c1748e45435b06cf8dd105b73e9855f93e", 20000, 16784600),
        defaults(),
    )
    .unwrap();
    assert!(!response.success);
    assert_eq!(response.exit_reason, InstructionResult::OutOfGas);
}

#[test]
fn wrong_chain_id_with_configured_fork_url() {
    let config = load_config(
        None,
        Some("https://eth-mainnet.g.alchemy.com/v2/demo".to_string()),
        None,
        None,
    )
    .unwrap();
    let rejection = post_simulate(
        transaction(137, "0x95222290dd7278aa3ddd389cc1e1d165cc4bafe5", 21000, 16784600),
        config,
    )
    .unwrap_err();
    assert_eq!(
        reply(rejection),
        ErrorMessage { code: 400, message: "INCORRECT_CHAIN_ID".to_string() }
    );
}

#[test]
fn unknown_chain_with_configured_fork_url_is_an_incorrect_chain() {
    let config =
        load_config(None, Some("http://localhost:8545".to_string()), None, None).unwrap();
    let rejection = post_simulate(
        transaction(31337, "0x95222290dd7278aa3ddd389cc1e1d165cc4bafe5", 21000, 16784600),
        config,
    )
    .unwrap_err();
    assert_eq!(reply(rejection).message, "INCORRECT_CHAIN_ID");
}

#[test]
fn unknown_chain_without_fork_url_is_not_supported() {
    let rejection = post_simulate(
        transaction(31337, "0x95222290dd7278aa3ddd389cc1e1d165cc4bafe5", 21000, 16784600),
        defaults(),
    )
    .unwrap_err();
    assert_eq!(
        reply(rejection),
        ErrorMessage { code: 400, message: "CHAIN_ID_NOT_SUPPORTED".to_string() }
    );
}

#[test]
fn bundle_with_descending_blocks_replies_invalid_block_numbers() {
    let rejection = post_simulate_bundle(
        vec![
            bundle_item("0xdac17f958d2ee523a2206206994597c13d831ec7", 16968597),
            bundle_item("0x60f727bdead2ce49b00f2a2133fc707b931d130b", 16968596),
        ],
        defaults(),
    )
    .unwrap_err();
    assert_eq!(
        reply(rejection),
        ErrorMessage { code: 400, message: "INVALID_BLOCK_NUMBERS".to_string() }
    );
}

#[test]
fn bundle_with_progressing_blocks_replies_each_block() {
    let body = post_simulate_bundle(
        vec![
            bundle_item("0xdac17f958d2ee523a2206206994597c13d831ec7", 16968595),
            bundle_item("0x60f727bdead2ce49b00f2a2133fc707b931d130b", 16968596),
            bundle_item("0x7E7d64D987cAb6EeD08A191C4C2459dAF2f8ED0B", 16968597),
        ],
        defaults(),
    )
    .unwrap();
    assert_eq!(body.len(), 3);
    assert_eq!(body[0].block_number, 16968595);
    assert_eq!(body[1].block_number, 16968596);
    assert_eq!(body[2].block_number, 16968597);
}

#[test]
fn bundle_with_two_chains_replies_multiple_chain_ids() {
    let mut second = bundle_item("0x60f727bdead2ce49b00f2a2133fc707b931d130b", 16968595);
    second.chain_id = 5;
    let rejection = post_simulate_bundle(
        vec![bundle_item("0xdac17f958d2ee523a2206206994597c13d831ec7", 16968595), second],
        defaults(),
    )
    .unwrap_err();
    assert_eq!(
        reply(rejection),
        ErrorMessage { code: 400, message: "MULTIPLE_CHAIN_IDS".to_string() }
    );
}

#[test]
fn session_from_creation_to_release() {
    let mut state: SharedSimulationState<Interpreter> = SharedSimulationState::new();

    // create
    let request =
        StatefulSimulationRequest { chain_id: 1, gas_limit: 5000000, block_number: Some(16968595) };
    let setup = simulate_stateful_new(request, defaults()).unwrap();
    let evm = Interpreter::new(&setup);
    check_chain_id(Uint::from_u64(evm.chain_id), request.chain_id).unwrap();
    let id = state.create(evm).stateful_simulation_id;

    // two calls on the session: the state stays between them
    let items = vec![
        bundle_item("0xdac17f958d2ee523a2206206994597c13d831ec7", 16968595),
        bundle_item("0x60f727bdead2ce49b00f2a2133fc707b931d130b", 16968596),
    ];
    let (_, chain_id, sequencer) = simulate_stateful(id, &items, &state).unwrap();
    assert_eq!(chain_id, 1);
    // the handle is taken out for the run and put back, as a lock would give and take it
    let mut evm = Interpreter {
        chain_id: 1,
        block: state.lookup(id).unwrap().block,
        timestamp: state.lookup(id).unwrap().timestamp,
        gas_limit: state.lookup(id).unwrap().gas_limit,
        committed: state.lookup(id).unwrap().committed,
    };
    let body = evm.sequence(sequencer, items).unwrap();
    assert_eq!(body.len(), 2);
    assert!(body[0].success && body[1].success);
    assert_eq!((body[0].block_number, body[1].block_number), (16968595, 16968596));
    assert_eq!(evm.committed, 2);
    assert_eq!(evm.timestamp, 1680000012);
    state.insert(id, evm);
    assert_eq!(state.lookup(id).unwrap().committed, 2);

    // release, then release again
    assert!(simulate_stateful_end(id, &mut state).unwrap().success);
    let rejection = simulate_stateful_end(id, &mut state).unwrap_err();
    assert_eq!(
        reply(rejection),
        ErrorMessage { code: 404, message: "STATE_NOT_FOUND".to_string() }
    );
    let items = vec![bundle_item("0xdac17f958d2ee523a2206206994597c13d831ec7", 16968595)];
    let rejection = simulate_stateful(id, &items, &state).map(|_| ()).unwrap_err();
    assert_eq!(reply(rejection).message, "STATE_NOT_FOUND");
}
