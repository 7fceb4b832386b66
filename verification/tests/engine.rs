use trin_execution::engine::{
    block_building_unsupported, check_payload_block_hash, engine_capabilities,
    plan_engine_services, EngineApiError, EngineRPCServer, EngineService, EngineServicePlan, PayloadStatusKind,
};
use trin_execution::execution_position::{ExecutionPositionV2, ForkchoiceState};

#[test]
fn error_codes_and_messages() {
    assert_eq!(EngineApiError::ParseError.code(), -32700);
    assert_eq!(EngineApiError::InvalidRequest.code(), -32600);
    assert_eq!(EngineApiError::MethodNotFound.code(), -32601);
    assert_eq!(EngineApiError::InvalidParams.code(), -32602);
    assert_eq!(EngineApiError::InternalError.code(), -32603);
    assert_eq!(EngineApiError::ServerError("x".to_string()).code(), -32000);
    assert_eq!(EngineApiError::UnknownPayload.code(), -38001);
    assert_eq!(EngineApiError::InvalidForkchoiceState.code(), -38002);
    assert_eq!(EngineApiError::InvalidPayloadAttributes.code(), -38003);
    assert_eq!(EngineApiError::TooLargeRequest.code(), -38004);
    assert_eq!(EngineApiError::UnsupportedFork.code(), -38005);
    assert_eq!(EngineApiError::UnknownPayload.message(), "Unknown payload");
    assert_eq!(EngineApiError::ServerError("boom".to_string()).message(), "Server error");
    assert_eq!(
        EngineApiError::ServerError("boom".to_string()).data(),
        Some("boom".to_string())
    );
    assert_eq!(EngineApiError::TooLargeRequest.data(), None);
}

#[test]
fn capabilities_list_the_engine_methods() {
    let caps = engine_capabilities();
    assert_eq!(caps.len(), 16);
    assert_eq!(caps[0], "engine_getClientVersionV1");
    assert_eq!(caps[15], "engine_newPayloadV4");
}

#[test]
fn matching_block_hash_is_accepted() {
    assert_eq!(check_payload_block_hash(&[5; 32], &[5; 32]), Ok(()));
}

#[test]
fn mismatching_block_hash_is_refused_with_both_hashes() {
    let mut expected = [0u8; 32];
    expected[0] = 0xab;
    let mut computed = [0u8; 32];
    computed[31] = 0x0f;
    let err = check_payload_block_hash(&expected, &computed).unwrap_err();
    let text = format!(
        "Block hash mismatch: expected 0xab{} but got 0x{}0f",
        "00".repeat(31),
        "00".repeat(31)
    );
    assert_eq!(err, EngineApiError::ServerError(text));
}

#[test]
fn block_building_is_refused() {
    assert_eq!(
        block_building_unsupported(),
        EngineApiError::ServerError(
            "Trin Execution doesn't support block building for the time being.".to_string()
        )
    );
}

#[test]
fn fork_choice_updates_position_and_head() {
    let mut service = EngineService::new();
    assert_eq!(service.latest_head(), None);
    let mut position = ExecutionPositionV2::default();
    let fcs = ForkchoiceState {
        head_block_hash: [1; 32],
        safe_block_hash: [2; 32],
        finalized_block_hash: [3; 32],
    };
    let (record, status) = service.handle_fork_choice(&mut position, fcs);
    assert_eq!(status, PayloadStatusKind::Syncing);
    assert_eq!(service.latest_head(), Some([1; 32]));
    assert_eq!(position.head_block_hash(), [1; 32]);
    assert_eq!(position.safe_block_hash(), [2; 32]);
    assert_eq!(position.finalized_block_hash(), [3; 32]);
    assert_eq!(ExecutionPositionV2::decode(&record).unwrap(), position);
    assert_eq!(service.handle_new_payload(), PayloadStatusKind::Syncing);
}

#[test]
fn services_started_by_the_engine() {
    assert_eq!(plan_engine_services(false, true), EngineServicePlan { sync: false, bridge: false });
    assert_eq!(plan_engine_services(true, false), EngineServicePlan { sync: true, bridge: false });
    assert_eq!(plan_engine_services(true, true), EngineServicePlan { sync: true, bridge: true });
}

#[test]
fn later_payload_versions_answer_syncing() {
    assert_eq!(EngineRPCServer {}.new_payload_v3(), PayloadStatusKind::Syncing);
    assert_eq!(EngineRPCServer {}.new_payload_v4(), PayloadStatusKind::Syncing);
}
