//! Errors, fixed answers and decisions of the Engine API.
use crate::execution_position::{ExecutionPositionV2, ForkchoiceState, PositionModel, v2_encoding};
use crate::text::{hash_string, hash_text};
use vstd::prelude::*;
use vstd::string::StringExecFns;

verus! {

/// Errors of the Engine API, with their JSON-RPC error codes.
#[derive(Debug, Clone, PartialEq, Eq)]
pub enum EngineApiError {
    /// Invalid JSON was received by the server.
    ParseError,
    /// The JSON sent is not a valid Request object.
    InvalidRequest,
    /// The method does not exist / is not available.
    MethodNotFound,
    /// Invalid method parameter(s).
    InvalidParams,
    /// Internal JSON-RPC error.
    InternalError,
    /// Generic client error while processing request.
    ServerError(String),
    /// Payload does not exist / is not available.
    UnknownPayload,
    /// Forkchoice state is invalid / inconsistent.
    InvalidForkchoiceState,
    /// Payload attributes are invalid / inconsistent.
    InvalidPayloadAttributes,
    /// Number of requested entities is too large.
    TooLargeRequest,
    /// Payload belongs to a fork that is not supported.
    UnsupportedFork,
}

/// The JSON-RPC error code of an Engine API error.
pub open spec fn engine_error_code(e: EngineApiError) -> i32 {
    match e {
        EngineApiError::ParseError => -32700i32,
        EngineApiError::InvalidRequest => -32600i32,
        EngineApiError::MethodNotFound => -32601i32,
        EngineApiError::InvalidParams => -32602i32,
        EngineApiError::InternalError => -32603i32,
        EngineApiError::ServerError(_) => -32000i32,
        EngineApiError::UnknownPayload => -38001i32,
        EngineApiError::InvalidForkchoiceState => -38002i32,
        EngineApiError::InvalidPayloadAttributes => -38003i32,
        EngineApiError::TooLargeRequest => -38004i32,
        EngineApiError::UnsupportedFork => -38005i32,
    }
}

/// The message of an Engine API error.
pub open spec fn engine_error_message(e: EngineApiError) -> Seq<char> {
    match e {
        EngineApiError::ParseError => "Parse error"@,
        EngineApiError::InvalidRequest => "Invalid Request"@,
        EngineApiError::MethodNotFound => "Method not found"@,
        EngineApiError::InvalidParams => "Invalid params"@,
        EngineApiError::InternalError => "Internal error"@,
        EngineApiError::ServerError(_) => "Server error"@,
        EngineApiError::UnknownPayload => "Unknown payload"@,
        EngineApiError::InvalidForkchoiceState => "Invalid forkchoice state"@,
        EngineApiError::InvalidPayloadAttributes => "Invalid payload attributes"@,
        EngineApiError::TooLargeRequest => "Too large request"@,
        EngineApiError::UnsupportedFork => "Unsupported fork"@,
    }
}

impl EngineApiError {
    /// The JSON-RPC error code this error is answered with.
    pub fn code(&self) -> (c: i32)
        ensures
            c == engine_error_code(*self),
    {
        match self {
            EngineApiError::ParseError => -32700,
            EngineApiError::InvalidRequest => -32600,
            EngineApiError::MethodNotFound => -32601,
            EngineApiError::InvalidParams => -32602,
            EngineApiError::InternalError => -32603,
            EngineApiError::ServerError(_) => -32000,
            EngineApiError::UnknownPayload => -38001,
            EngineApiError::InvalidForkchoiceState => -38002,
            EngineApiError::InvalidPayloadAttributes => -38003,
            EngineApiError::TooLargeRequest => -38004,
            EngineApiError::UnsupportedFork => -38005,
        }
    }

    /// The message this error is answered with.
    pub fn message(&self) -> (m: String)
        ensures
            m@ == engine_error_message(*self),
    {
        let text: &str = match self {
            EngineApiError::ParseError => "Parse error",
            EngineApiError::InvalidRequest => "Invalid Request",
            EngineApiError::MethodNotFound => "Method not found",
            EngineApiError::InvalidParams => "Invalid params",
            EngineApiError::InternalError => "Internal error",
            EngineApiError::ServerError(_) => "Server error",
            EngineApiError::UnknownPayload => "Unknown payload",
            EngineApiError::InvalidForkchoiceState => "Invalid forkchoice state",
            EngineApiError::InvalidPayloadAttributes => "Invalid payload attributes",
            EngineApiError::TooLargeRequest => "Too large request",
            EngineApiError::UnsupportedFork => "Unsupported fork",
        };
        text.to_string()
    }

    /// The data attached to the answer: the detail of a server error, nothing
    /// for the others.
    pub fn data(&self) -> (d: Option<String>)
        ensures
            match *self {
                EngineApiError::ServerError(detail) => d is Some && d->Some_0@ == detail@,
                _ => d is None,
            },
    {
        match self {
            EngineApiError::ServerError(detail) => Some(detail.clone()),
            _ => None,
        }
    }
}

/// The Engine API methods this client offers, as answered to
/// `engine_exchangeCapabilities`.
pub open spec fn engine_capability_names() -> Seq<Seq<char>> {
    seq![
        "engine_getClientVersionV1"@,
        "engine_forkchoiceUpdatedV1"@,
        "engine_forkchoiceUpdatedV2"@,
        "engine_forkchoiceUpdatedV3"@,
        "engine_getPayloadBodiesByHashV1"@,
        "engine_getPayloadBodiesByHashV2"@,
        "engine_getPayloadBodiesByRangeV1"@,
        "engine_getPayloadBodiesByRangeV2"@,
        "engine_getPayloadV1"@,
        "engine_getPayloadV2"@,
        "engine_getPayloadV3"@,
        "engine_getPayloadV4"@,
        "engine_newPayloadV1"@,
        "engine_newPayloadV2"@,
        "engine_newPayloadV3"@,
        "engine_newPayloadV4"@,
    ]
}

/// The answer to `engine_exchangeCapabilities`: the methods this client
/// offers, whatever the consensus client offers.
pub fn engine_capabilities() -> (caps: Vec<String>)
    ensures
        caps@.map_values(|s: String| s@) == engine_capability_names(),
{
    let mut caps: Vec<String> = Vec::new();
    caps.push("engine_getClientVersionV1".to_string());
    caps.push("engine_forkchoiceUpdatedV1".to_string());
    caps.push("engine_forkchoiceUpdatedV2".to_string());
    caps.push("engine_forkchoiceUpdatedV3".to_string());
    caps.push("engine_getPayloadBodiesByHashV1".to_string());
    caps.push("engine_getPayloadBodiesByHashV2".to_string());
    caps.push("engine_getPayloadBodiesByRangeV1".to_string());
    caps.push("engine_getPayloadBodiesByRangeV2".to_string());
    caps.push("engine_getPayloadV1".to_string());
    caps.push("engine_getPayloadV2".to_string());
    caps.push("engine_getPayloadV3".to_string());
    caps.push("engine_getPayloadV4".to_string());
    caps.push("engine_newPayloadV1".to_string());
    caps.push("engine_newPayloadV2".to_string());
    caps.push("engine_newPayloadV3".to_string());
    caps.push("engine_newPayloadV4".to_string());
    assert(caps@.map_values(|s: String| s@) =~= engine_capability_names());
    caps
}

/// The detail of the error answered to a payload whose block hash is not
/// the hash of its header.
pub open spec fn block_hash_mismatch_text(expected: [u8; 32], computed: [u8; 32]) -> Seq<char> {
    "Block hash mismatch: expected "@ + hash_text(expected) + " but got "@ + hash_text(computed)
}

/// Checks that the block hash announced with a payload, `expected`, is the
/// hash of the header built from it, `computed`.
pub fn check_payload_block_hash(expected: &[u8; 32], computed: &[u8; 32]) -> (res: Result<
    (),
    EngineApiError,
>)
    ensures
        res is Ok <==> *expected == *computed,
        res is Err ==> (res->Err_0 matches EngineApiError::ServerError(detail) && detail@
            == block_hash_mismatch_text(*expected, *computed)),
{
    if crate::hash::same_hash(expected, computed) {
        return Ok(());
    }
    let mut detail = String::from_str("Block hash mismatch: expected ");
    detail.append(hash_string(expected).as_str());
    detail.append(" but got ");
    detail.append(hash_string(computed).as_str());
    Err(EngineApiError::ServerError(detail))
}

/// The detail of the error answered to the methods that build blocks.
pub open spec fn block_building_unsupported_text() -> Seq<char> {
    "Trin Execution doesn't support block building for the time being."@
}

/// The error answered to the methods that build blocks, which this client
/// does not offer.
pub fn block_building_unsupported() -> (e: EngineApiError)
    ensures
        e matches EngineApiError::ServerError(detail) && detail@
            == block_building_unsupported_text(),
{
    EngineApiError::ServerError(
        "Trin Execution doesn't support block building for the time being.".to_string(),
    )
}

/// The status answered about a payload or a fork-choice update.
#[derive(Clone, Copy, Debug, PartialEq, Eq)]
pub enum PayloadStatusKind {
    /// The payload was executed and is valid.
    Valid,
    /// The payload is invalid.
    Invalid,
    /// The client is still syncing and could not validate the payload.
    Syncing,
    /// The payload was accepted without full validation.
    Accepted,
}

/// The server of the Engine API methods.
pub struct EngineRPCServer {}

impl EngineRPCServer {
    /// Answer to `engine_newPayloadV3`: payloads of this version are not
    /// processed yet, and the answer is that the client is syncing.
    pub fn new_payload_v3(&self) -> (status: PayloadStatusKind)
        ensures
            status == PayloadStatusKind::Syncing,
    {
        PayloadStatusKind::Syncing
    }

    /// Answer to `engine_newPayloadV4`: payloads of this version are not
    /// processed yet, and the answer is that the client is syncing.
    pub fn new_payload_v4(&self) -> (status: PayloadStatusKind)
        ensures
            status == PayloadStatusKind::Syncing,
    {
        PayloadStatusKind::Syncing
    }
}

/// The state of the Engine API service between commands.
pub struct EngineService {
    latest_canonical_header_hash: Option<[u8; 32]>,
}

impl EngineService {
    /// A service that has not been told the canonical head yet.
    pub fn new() -> (s: Self)
        ensures
            s.latest_canonical_header_hash() is None,
    {
        EngineService { latest_canonical_header_hash: None }
    }

    /// The head hash of the last fork-choice update.
    pub closed spec fn latest_canonical_header_hash(&self) -> Option<[u8; 32]> {
        self.latest_canonical_header_hash
    }

    /// The head hash of the last fork-choice update, if any.
    pub fn latest_head(&self) -> (h: Option<[u8; 32]>)
        ensures
            h == self.latest_canonical_header_hash(),
    {
        self.latest_canonical_header_hash
    }

    /// Answers a new payload: payloads are not validated yet, so the answer is
    /// that the client is syncing.
    pub fn handle_new_payload(&self) -> (status: PayloadStatusKind)
        ensures
            status == PayloadStatusKind::Syncing,
    {
        PayloadStatusKind::Syncing
    }

    /// Handles a fork-choice update: the execution position takes the new
    /// fork-choice hashes, the head becomes the latest canonical header, and
    /// the answer is that the client is syncing. Returns the position record
    /// to store with the answer.
    pub fn handle_fork_choice(
        &mut self,
        position: &mut ExecutionPositionV2,
        fork_choice_state: ForkchoiceState,
    ) -> (res: (Vec<u8>, PayloadStatusKind))
        ensures
            final(position)@ == (PositionModel {
                head_block_hash: fork_choice_state.head_block_hash,
                safe_block_hash: fork_choice_state.safe_block_hash,
                finalized_block_hash: fork_choice_state.finalized_block_hash,
                ..old(position)@
            }),
            res.0@ == v2_encoding(final(position)@),
            final(self).latest_canonical_header_hash() == Some(fork_choice_state.head_block_hash),
            res.1 == PayloadStatusKind::Syncing,
    {
        let record = position.update_fork_choice_state(fork_choice_state);
        self.latest_canonical_header_hash = Some(fork_choice_state.head_block_hash);
        (record, PayloadStatusKind::Syncing)
    }
}

/// Which background services the engine starts.
#[derive(Clone, Copy, Debug, PartialEq, Eq)]
pub struct EngineServicePlan {
    /// Sync blocks from the consensus client's beacon node.
    pub sync: bool,
    /// Bridge the state diffs of executed blocks into the Portal network.
    pub bridge: bool,
}

/// The services the engine starts: syncing when a beacon node endpoint is
/// given, and bridging the state diffs, when asked for, only while syncing.
pub fn plan_engine_services(has_beacon_api_endpoint: bool, bridge_diffs: bool) -> (plan:
    EngineServicePlan)
    ensures
        plan == (EngineServicePlan {
            sync: has_beacon_api_endpoint,
            bridge: has_beacon_api_endpoint && bridge_diffs,
        }),
{
    EngineServicePlan { sync: has_beacon_api_endpoint, bridge: has_beacon_api_endpoint && bridge_diffs }
}

} // verus!
