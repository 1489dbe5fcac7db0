//! What goes into the interpreter and what comes out of it.
//!
//! The interpreter itself, with its forked state, runs outside this crate. The
//! types here are its inputs and results as plain values, and the functions
//! shape what it returned.

use crate::errors::{EvmError, OverrideError, Rejection};
use crate::types::{AccessList, Address, Bytes, Log, H256};
use crate::uint::Uint;
use vstd::prelude::*;
use vstd::string::StringExecFns;

verus! {

/// How a call frame was entered.
#[derive(Debug, Clone, Copy, PartialEq, Eq, Structural)]
pub enum CallKind {
    Call,
    StaticCall,
    CallCode,
    DelegateCall,
    Create,
    Create2,
}

/// Terminal status of the interpreter.
#[derive(Debug, Clone, Copy, PartialEq, Eq, Structural)]
pub enum InstructionResult {
    Continue,
    Stop,
    Return,
    SelfDestruct,
    Revert,
    CallTooDeep,
    OutOfFund,
    OutOfGas,
    MemoryOOG,
    MemoryLimitOOG,
    PrecompileOOG,
    InvalidOperandOOG,
    OpcodeNotFound,
    CallNotAllowedInsideStatic,
    StateChangeDuringStaticCall,
    InvalidFEOpcode,
    InvalidJump,
    NotActivated,
    StackUnderflow,
    StackOverflow,
    OutOfOffset,
    CreateCollision,
    OverflowPayment,
    PrecompileError,
    NonceOverflow,
    CreateContractSizeLimit,
    CreateContractStartingWithEF,
    CreateInitcodeSizeLimit,
    FatalExternalError,
}

impl CallKind {
    /// The keyword under which the kind is written in a response.
    pub open spec fn keyword_spec(self) -> Seq<char> {
        match self {
            CallKind::Call => "CALL"@,
            CallKind::StaticCall => "STATICCALL"@,
            CallKind::CallCode => "CALLCODE"@,
            CallKind::DelegateCall => "DELEGATECALL"@,
            CallKind::Create => "CREATE"@,
            CallKind::Create2 => "CREATE2"@,
        }
    }

    /// The keyword under which the kind is written in a response.
    pub fn keyword(self) -> (word: &'static str)
        ensures
            word@ == self.keyword_spec(),
    {
        match self {
            CallKind::Call => "CALL",
            CallKind::StaticCall => "STATICCALL",
            CallKind::CallCode => "CALLCODE",
            CallKind::DelegateCall => "DELEGATECALL",
            CallKind::Create => "CREATE",
            CallKind::Create2 => "CREATE2",
        }
    }
}

impl InstructionResult {
    /// The status is one of those that end an execution without a revert or a fault.
    pub open spec fn is_ok_spec(self) -> bool {
        self is Continue || self is Stop || self is Return || self is SelfDestruct
    }

    /// Tells whether the execution ended without a revert or a fault.
    #[verifier::when_used_as_spec(is_ok_spec)]
    pub fn is_ok(self) -> (ok: bool)
        ensures
            ok == self.is_ok_spec(),
    {
        match self {
            InstructionResult::Continue
            | InstructionResult::Stop
            | InstructionResult::Return
            | InstructionResult::SelfDestruct => true,
            _ => false,
        }
    }
}

/// One call frame of an execution.
#[derive(Debug, Clone, Copy, PartialEq, Eq)]
pub struct CallTraceNode {
    pub kind: CallKind,
    pub caller: Address,
    pub address: Address,
    pub value: Uint,
}

/// The call frames of an execution in the order in which they were entered:
/// the root first, each frame before the frames it called.
#[derive(Debug, Clone, PartialEq, Eq)]
pub struct CallTraceArena {
    pub arena: Vec<CallTraceNode>,
}

/// Storage to put under an account. With `diff` the slots are laid over the
/// forked storage; without it they replace it, and every other slot reads zero.
#[derive(Debug, Clone, PartialEq, Eq)]
pub struct StorageOverride {
    pub slots: Vec<(H256, Uint)>,
    pub diff: bool,
}

/// What to change in one account before a call. A field that is `None` stays
/// as the forked state has it.
#[derive(Debug, Clone, PartialEq, Eq)]
pub struct AccountOverride {
    pub address: Address,
    pub balance: Option<Uint>,
    pub nonce: Option<u64>,
    pub code: Option<Bytes>,
    pub storage: Option<StorageOverride>,
}

/// A call to execute.
#[derive(Debug, Clone, PartialEq, Eq)]
pub struct CallRawRequest {
    pub from: Address,
    pub to: Address,
    pub value: Uint,
    pub data: Bytes,
    pub access_list: AccessList,
    pub format_trace: bool,
}

/// What the interpreter hands back after a call.
#[derive(Debug, Clone, PartialEq, Eq)]
pub struct RawCallResult {
    pub exit_reason: InstructionResult,
    pub gas_used: u64,
    /// Block in whose context the call ran.
    pub block_number: u64,
    pub result: Bytes,
    pub logs: Vec<Log>,
    pub traces: Option<CallTraceArena>,
}

/// Result of a call as the engine passes it on.
#[derive(Debug, Clone, PartialEq, Eq)]
pub struct CallRawResult {
    pub gas_used: u64,
    pub block_number: u64,
    pub success: bool,
    pub trace: Option<CallTraceArena>,
    pub logs: Vec<Log>,
    pub exit_reason: InstructionResult,
    pub return_data: Bytes,
    pub formatted_trace: Option<String>,
}

/// Gas price in the environment of a fork: simulations pay nothing for gas.
pub const FORK_GAS_PRICE: u64 = 0;

/// Gas limit of the block in the environment of a fork: no block is ever full.
pub const FORK_BLOCK_GAS_LIMIT: u64 = 0xffff_ffff_ffff_ffff;

/// Level of detail at which traces are decoded.
pub const TRACE_VERBOSITY: u8 = 5;

/// With what an EVM instance is built.
#[derive(Debug, Clone, PartialEq, Eq)]
pub struct EvmSetup {
    /// Upstream node that missing state is read from.
    pub fork_url: String,
    /// Block to pin the fork to; `None` pins it to the upstream's head.
    pub fork_block_number: Option<u64>,
    /// Gas limit of the calls.
    pub gas_limit: u64,
    /// Whether the executor records the call frames.
    pub tracing: bool,
    /// Key of the explorer that names the contracts in traces.
    pub etherscan_key: Option<String>,
    /// Whether what was read from the upstream node is kept for later reads.
    pub enable_caching: bool,
    pub gas_price: u64,
    pub block_gas_limit: u64,
    pub trace_verbosity: u8,
}

/// The texts of `parts` one after the other.
pub open spec fn joined(parts: Seq<String>) -> Seq<char>
    decreases parts.len(),
{
    if parts.len() == 0 {
        Seq::<char>::empty()
    } else {
        joined(parts.drop_last()) + parts.last()@
    }
}

/// The readable trace of a call: the rendered traces one after the other where
/// the request asked for it, nothing where it did not.
pub fn format_traces(format_trace: bool, rendered: &Vec<String>) -> (output: Option<String>)
    ensures
        format_trace ==> output is Some && output->Some_0@ == joined(rendered@),
        !format_trace ==> output is None,
{
    if !format_trace {
        return None;
    }
    let mut output = String::new();
    let mut i: usize = 0;
    while i < rendered.len()
        invariant
            i <= rendered@.len(),
            output@ == joined(rendered@.take(i as int)),
        decreases rendered@.len() - i,
    {
        output.append(rendered[i].as_str());
        proof {
            assert(rendered@.take(i + 1).drop_last() =~= rendered@.take(i as int));
        }
        i += 1;
    }
    proof {
        assert(rendered@.take(rendered@.len() as int) =~= rendered@);
    }
    Some(output)
}

/// `result` passes on what the interpreter returned. The call counts as a
/// success exactly where the interpreter ended without a revert or a fault.
pub open spec fn shapes(
    result: CallRawResult,
    raw: RawCallResult,
    formatted_trace: Option<String>,
) -> bool {
    &&& result.gas_used == raw.gas_used
    &&& result.block_number == raw.block_number
    &&& result.success == raw.exit_reason.is_ok()
    &&& result.trace == raw.traces
    &&& result.logs == raw.logs
    &&& result.exit_reason == raw.exit_reason
    &&& result.return_data == raw.result
    &&& result.formatted_trace == formatted_trace
}

impl CallRawResult {
    /// Shapes what the interpreter returned.
    pub fn new(raw: RawCallResult, formatted_trace: Option<String>) -> (result: CallRawResult)
        ensures
            shapes(result, raw, formatted_trace),
    {
        CallRawResult {
            gas_used: raw.gas_used,
            block_number: raw.block_number,
            success: raw.exit_reason.is_ok(),
            trace: raw.traces,
            logs: raw.logs,
            exit_reason: raw.exit_reason,
            return_data: raw.result,
            formatted_trace,
        }
    }
}

/// What becomes of a call: the interpreter's result, or its fault as a rejection.
pub fn call_outcome(outcome: Result<RawCallResult, EvmError>, formatted_trace: Option<String>) -> (r:
    Result<CallRawResult, Rejection>)
    ensures
        match outcome {
            Ok(raw) => r is Ok && shapes(r->Ok_0, raw, formatted_trace),
            Err(e) => r == Err::<CallRawResult, Rejection>(Rejection::Evm(e)),
        },
{
    match outcome {
        Ok(raw) => Ok(CallRawResult::new(raw, formatted_trace)),
        Err(e) => Err(Rejection::Evm(e)),
    }
}

/// What becomes of a state override: done, or the backend's refusal as a rejection.
pub fn override_outcome(outcome: Result<(), OverrideError>) -> (r: Result<(), Rejection>)
    ensures
        match outcome {
            Ok(_) => r is Ok,
            Err(e) => r == Err::<(), Rejection>(Rejection::Override(e)),
        },
{
    match outcome {
        Ok(_) => Ok(()),
        Err(e) => Err(Rejection::Override(e)),
    }
}

} // verus!
