//! The rejections of the service and how each is rendered.

use vstd::prelude::*;
use vstd::string::StringExecFns;

verus! {

/// Body of an error reply: the HTTP status and the stable machine code.
#[derive(Debug, Clone, PartialEq, Eq)]
pub struct ErrorMessage {
    pub code: u16,
    pub message: String,
}

/// No upstream node is known for the chain and none was configured.
#[derive(Debug, Clone, Copy, PartialEq, Eq)]
pub struct NoURLForChainIdError;

/// The forked chain is not the one the request names.
#[derive(Debug, Clone, Copy, PartialEq, Eq)]
pub struct IncorrectChainIdError();

/// The items of a bundle name different chains.
#[derive(Debug, Clone, Copy, PartialEq, Eq)]
pub struct MultipleChainIdsError();

/// Reserved: no rule of the engine raises it.
#[derive(Debug, Clone, Copy, PartialEq, Eq)]
pub struct MultipleBlockNumbersError();

/// An item of a bundle asks for a block before the first item's or before the
/// block the EVM stands at.
#[derive(Debug, Clone, Copy, PartialEq, Eq)]
pub struct InvalidBlockNumbersError();

/// No session has the given id.
#[derive(Debug, Clone, Copy, PartialEq, Eq)]
pub struct StateNotFound();

/// The backend refused a state override.
#[derive(Debug, Clone, Copy, PartialEq, Eq)]
pub struct OverrideError;

/// The interpreter failed; the field is the text of its report.
#[derive(Debug, Clone, PartialEq, Eq)]
pub struct EvmError(pub String);


/// What an endpoint of the engine rejects a request with.
#[derive(Debug, Clone, PartialEq, Eq)]
pub enum Rejection {
    StateNotFound(StateNotFound),
    NoUrlForChainId(NoURLForChainIdError),
    IncorrectChainId(IncorrectChainIdError),
    MultipleChainIds(MultipleChainIdsError),
    MultipleBlockNumbers(MultipleBlockNumbersError),
    InvalidBlockNumbers(InvalidBlockNumbersError),
    Override(OverrideError),
    Evm(EvmError),
}

/// The causes found in a rejected request. The HTTP layer may combine the
/// rejections of several routes, so more than one can be present.
#[derive(Debug, Clone, PartialEq, Eq)]
pub struct RejectionCauses {
    /// Every route rejected the path and nothing else was found.
    pub not_found: bool,
    pub state_not_found: bool,
    pub no_url_for_chain_id: bool,
    pub incorrect_chain_id: bool,
    pub multiple_chain_ids: bool,
    pub multiple_block_numbers: bool,
    pub invalid_block_numbers: bool,
    pub override_error: bool,
    pub evm_error: Option<EvmError>,
    /// The body could not be decoded; inside, the decoder's diagnostic if it gave one.
    pub body_deserialize_error: Option<Option<String>>,
    pub method_not_allowed: bool,
    /// The header with the shared secret is missing.
    pub missing_header: bool,
    /// The header with the shared secret holds another value.
    pub invalid_header: bool,
}

pub const STATUS_BAD_REQUEST: u16 = 400;

pub const STATUS_UNAUTHORIZED: u16 = 401;

pub const STATUS_NOT_FOUND: u16 = 404;

pub const STATUS_METHOD_NOT_ALLOWED: u16 = 405;

pub const STATUS_INTERNAL_SERVER_ERROR: u16 = 500;

/// The interpreter's report says that the call costs more gas than the limit allows.
pub open spec fn is_out_of_gas(report: Seq<char>) -> bool {
    crate::text::contains(
        vstd::utf8::encode_utf8(report),
        vstd::utf8::encode_utf8("CallGasCostMoreThanGasLimit"@),
    )
}

/// The causes that a rejection of the engine leaves in a request: itself.
pub open spec fn causes_of(rejection: Rejection) -> RejectionCauses {
    RejectionCauses {
        not_found: false,
        state_not_found: rejection is StateNotFound,
        no_url_for_chain_id: rejection is NoUrlForChainId,
        incorrect_chain_id: rejection is IncorrectChainId,
        multiple_chain_ids: rejection is MultipleChainIds,
        multiple_block_numbers: rejection is MultipleBlockNumbers,
        invalid_block_numbers: rejection is InvalidBlockNumbers,
        override_error: rejection is Override,
        evm_error: match rejection {
            Rejection::Evm(e) => Some(e),
            _ => None,
        },
        body_deserialize_error: None,
        method_not_allowed: false,
        missing_header: false,
        invalid_header: false,
    }
}

/// HTTP status of a rejected request. Where several causes are present the
/// first of this list decides.
pub open spec fn status_of(causes: RejectionCauses) -> u16 {
    if causes.not_found || causes.state_not_found {
        STATUS_NOT_FOUND
    } else if causes.no_url_for_chain_id || causes.incorrect_chain_id || causes.multiple_chain_ids
        || causes.multiple_block_numbers || causes.invalid_block_numbers {
        STATUS_BAD_REQUEST
    } else if causes.override_error {
        STATUS_INTERNAL_SERVER_ERROR
    } else if let Some(e) = causes.evm_error {
        if is_out_of_gas(e.0@) {
            STATUS_BAD_REQUEST
        } else {
            STATUS_INTERNAL_SERVER_ERROR
        }
    } else if causes.body_deserialize_error is Some {
        STATUS_BAD_REQUEST
    } else if causes.method_not_allowed {
        STATUS_METHOD_NOT_ALLOWED
    } else if causes.missing_header || causes.invalid_header {
        STATUS_UNAUTHORIZED
    } else {
        STATUS_INTERNAL_SERVER_ERROR
    }
}

/// Machine code of a rejected request, by the same order of precedence.
pub open spec fn code_of(causes: RejectionCauses) -> Seq<char> {
    if causes.not_found {
        "NOT_FOUND"@
    } else if causes.state_not_found {
        "STATE_NOT_FOUND"@
    } else if causes.no_url_for_chain_id {
        "CHAIN_ID_NOT_SUPPORTED"@
    } else if causes.incorrect_chain_id {
        "INCORRECT_CHAIN_ID"@
    } else if causes.multiple_chain_ids {
        "MULTIPLE_CHAIN_IDS"@
    } else if causes.multiple_block_numbers {
        "MULTIPLE_BLOCK_NUMBERS"@
    } else if causes.invalid_block_numbers {
        "INVALID_BLOCK_NUMBERS"@
    } else if causes.override_error {
        "OVERRIDE_ERROR"@
    } else if let Some(e) = causes.evm_error {
        if is_out_of_gas(e.0@) {
            "OUT_OF_GAS"@
        } else {
            "EVM_ERROR"@
        }
    } else if let Some(body) = causes.body_deserialize_error {
        match body {
            Some(cause) => "BAD REQUEST: "@ + cause@,
            None => "BAD_REQUEST"@,
        }
    } else if causes.method_not_allowed {
        "METHOD_NOT_ALLOWED"@
    } else if causes.missing_header || causes.invalid_header {
        "UNAUTHORIZED"@
    } else {
        "UNHANDLED_REJECTION"@
    }
}

impl EvmError {
    /// Tells whether the report names the fault of a call whose cost exceeds
    /// the gas limit.
    pub fn is_out_of_gas(&self) -> (found: bool)
        ensures
            found == is_out_of_gas(self.0@),
    {
        crate::text::find(self.0.as_str().as_bytes(), "CallGasCostMoreThanGasLimit".as_bytes())
    }
}

impl RejectionCauses {
    /// A request in which no cause was found.
    pub fn none() -> (causes: RejectionCauses)
        ensures
            causes == (RejectionCauses {
                not_found: false,
                state_not_found: false,
                no_url_for_chain_id: false,
                incorrect_chain_id: false,
                multiple_chain_ids: false,
                multiple_block_numbers: false,
                invalid_block_numbers: false,
                override_error: false,
                evm_error: None,
                body_deserialize_error: None,
                method_not_allowed: false,
                missing_header: false,
                invalid_header: false,
            }),
    {
        RejectionCauses {
            not_found: false,
            state_not_found: false,
            no_url_for_chain_id: false,
            incorrect_chain_id: false,
            multiple_chain_ids: false,
            multiple_block_numbers: false,
            invalid_block_numbers: false,
            override_error: false,
            evm_error: None,
            body_deserialize_error: None,
            method_not_allowed: false,
            missing_header: false,
            invalid_header: false,
        }
    }

    /// The causes of a request that the engine rejected.
    pub fn of(rejection: Rejection) -> (causes: RejectionCauses)
        ensures
            causes == causes_of(rejection),
    {
        let mut causes = RejectionCauses::none();
        match rejection {
            Rejection::StateNotFound(_) => {
                causes.state_not_found = true;
            },
            Rejection::NoUrlForChainId(_) => {
                causes.no_url_for_chain_id = true;
            },
            Rejection::IncorrectChainId(_) => {
                causes.incorrect_chain_id = true;
            },
            Rejection::MultipleChainIds(_) => {
                causes.multiple_chain_ids = true;
            },
            Rejection::MultipleBlockNumbers(_) => {
                causes.multiple_block_numbers = true;
            },
            Rejection::InvalidBlockNumbers(_) => {
                causes.invalid_block_numbers = true;
            },
            Rejection::Override(_) => {
                causes.override_error = true;
            },
            Rejection::Evm(e) => {
                causes.evm_error = Some(e);
            },
        }
        causes
    }
}

/// Renders a rejected request: its HTTP status and its machine code.
pub fn handle_rejection(err: &RejectionCauses) -> (reply: ErrorMessage)
    ensures
        reply.code == status_of(*err),
        reply.message@ == code_of(*err),
{
    let code: u16;
    let message: String;
    if err.not_found {
        code = STATUS_NOT_FOUND;
        message = "NOT_FOUND".to_string();
    } else if err.state_not_found {
        code = STATUS_NOT_FOUND;
        message = "STATE_NOT_FOUND".to_string();
    } else if err.no_url_for_chain_id {
        code = STATUS_BAD_REQUEST;
        message = "CHAIN_ID_NOT_SUPPORTED".to_string();
    } else if err.incorrect_chain_id {
        code = STATUS_BAD_REQUEST;
        message = "INCORRECT_CHAIN_ID".to_string();
    } else if err.multiple_chain_ids {
        code = STATUS_BAD_REQUEST;
        message = "MULTIPLE_CHAIN_IDS".to_string();
    } else if err.multiple_block_numbers {
        code = STATUS_BAD_REQUEST;
        message = "MULTIPLE_BLOCK_NUMBERS".to_string();
    } else if err.invalid_block_numbers {
        code = STATUS_BAD_REQUEST;
        message = "INVALID_BLOCK_NUMBERS".to_string();
    } else if err.override_error {
        code = STATUS_INTERNAL_SERVER_ERROR;
        message = "OVERRIDE_ERROR".to_string();
    } else if let Some(e) = &err.evm_error {
        if e.is_out_of_gas() {
            code = STATUS_BAD_REQUEST;
            message = "OUT_OF_GAS".to_string();
        } else {
            code = STATUS_INTERNAL_SERVER_ERROR;
            message = "EVM_ERROR".to_string();
        }
    } else if let Some(body) = &err.body_deserialize_error {
        message = match body {
            Some(cause) => "BAD REQUEST: ".to_string().concat(cause.as_str()),
            None => "BAD_REQUEST".to_string(),
        };
        code = STATUS_BAD_REQUEST;
    } else if err.method_not_allowed {
        code = STATUS_METHOD_NOT_ALLOWED;
        message = "METHOD_NOT_ALLOWED".to_string();
    } else if err.missing_header || err.invalid_header {
        code = STATUS_UNAUTHORIZED;
        message = "UNAUTHORIZED".to_string();
    } else {
        code = STATUS_INTERNAL_SERVER_ERROR;
        message = "UNHANDLED_REJECTION".to_string();
    }
    ErrorMessage { code, message }
}

/// Each rejection of the engine has one row in the taxonomy: a fault of the
/// request answers 400 or 404 with its own code, a fault behind the engine 500.
pub proof fn lemma_taxonomy(rejection: Rejection)
    ensures
        rejection is StateNotFound ==> status_of(causes_of(rejection)) == 404 && code_of(
            causes_of(rejection),
        ) == "STATE_NOT_FOUND"@,
        rejection is NoUrlForChainId ==> status_of(causes_of(rejection)) == 400 && code_of(
            causes_of(rejection),
        ) == "CHAIN_ID_NOT_SUPPORTED"@,
        rejection is IncorrectChainId ==> status_of(causes_of(rejection)) == 400 && code_of(
            causes_of(rejection),
        ) == "INCORRECT_CHAIN_ID"@,
        rejection is MultipleChainIds ==> status_of(causes_of(rejection)) == 400 && code_of(
            causes_of(rejection),
        ) == "MULTIPLE_CHAIN_IDS"@,
        rejection is MultipleBlockNumbers ==> status_of(causes_of(rejection)) == 400 && code_of(
            causes_of(rejection),
        ) == "MULTIPLE_BLOCK_NUMBERS"@,
        rejection is InvalidBlockNumbers ==> status_of(causes_of(rejection)) == 400 && code_of(
            causes_of(rejection),
        ) == "INVALID_BLOCK_NUMBERS"@,
        rejection is Override ==> status_of(causes_of(rejection)) == 500 && code_of(
            causes_of(rejection),
        ) == "OVERRIDE_ERROR"@,
        rejection matches Rejection::Evm(e) ==> {
            if is_out_of_gas(e.0@) {
                status_of(causes_of(rejection)) == 400 && code_of(causes_of(rejection))
                    == "OUT_OF_GAS"@
            } else {
                status_of(causes_of(rejection)) == 500 && code_of(causes_of(rejection))
                    == "EVM_ERROR"@
            }
        },
{
}

} // verus!
