use trin_execution::execution_position::ExecutionPositionV2;
use trin_execution::rpc::{
    BlockNumberOrTag, DebugRPCServer, EngineAuthServer, EngineEthRPCServer, EthRPCServer,
    JwtSecretSource, NetRPCServer, RpcNamespace, RpcNamespaceError, RpcNamespaces, RpcServer,
    Web3RPCServer, not_implemented, UNSUPPORTED_ERROR_CODE, jwt_from_authorization, access_decision, AuthRejection,
};

#[test]
fn default_namespaces_are_eth() {
    let ns = RpcNamespaces::default();
    assert_eq!(ns.namespaces, vec![RpcNamespace::Eth]);
    assert!(ns.contains(&RpcNamespace::Eth));
    assert!(!ns.contains(&RpcNamespace::Admin));
}

#[test]
fn namespaces_parse_comma_separated_names() {
    let ns = RpcNamespaces::parse("eth,net,web3,debug,admin").unwrap();
    assert_eq!(
        ns.namespaces,
        vec![
            RpcNamespace::Eth,
            RpcNamespace::Net,
            RpcNamespace::Web3,
            RpcNamespace::Debug,
            RpcNamespace::Admin
        ]
    );
    let ns: RpcNamespaces = "debug,eth".parse().unwrap();
    assert_eq!(ns.namespaces, vec![RpcNamespace::Debug, RpcNamespace::Eth]);
}

#[test]
fn parse_of_the_default_text_gives_the_default() {
    assert_eq!(RpcNamespaces::parse("eth").unwrap().namespaces, RpcNamespaces::default().namespaces);
}

#[test]
fn unknown_namespace_is_refused_with_its_name() {
    assert_eq!(
        RpcNamespaces::parse("eth,foo,net").unwrap_err(),
        RpcNamespaceError::InvalidNamespace("foo".to_string())
    );
    assert_eq!(
        RpcNamespaces::parse("").unwrap_err(),
        RpcNamespaceError::InvalidNamespace(String::new())
    );
    assert_eq!(
        RpcNamespaces::parse("eth,").unwrap_err(),
        RpcNamespaceError::InvalidNamespace(String::new())
    );
    assert_eq!(
        RpcNamespaces::parse("Eth").unwrap_err(),
        RpcNamespaceError::InvalidNamespace("Eth".to_string())
    );
}

#[test]
fn enabled_modules_follow_the_server_order() {
    let ns = RpcNamespaces::parse("admin,eth,eth").unwrap();
    assert_eq!(RpcServer::enabled_modules(&ns), vec![RpcNamespace::Eth, RpcNamespace::Admin]);
}

#[test]
fn stateless_namespaces_answer_fixed_values() {
    assert_eq!(DebugRPCServer {}.client_version(), "test test test");
    assert_eq!(NetRPCServer {}.client_version(), "test test test");
    assert_eq!(Web3RPCServer {}.client_version(), "test test test");
    assert_eq!(Web3RPCServer {}.sha3(&[1, 2, 3]), [0u8; 32]);
}

#[test]
fn eth_block_number_is_the_last_executed_block_in_upper_hex() {
    let mut p = ExecutionPositionV2::default();
    assert_eq!(EthRPCServer {}.block_number(&p), "0");
    p.update_position(0xabc, [0; 32]);
    assert_eq!(EthRPCServer {}.block_number(&p), "ABC");
}

#[test]
fn engine_eth_block_number_is_the_latest_block_in_upper_hex() {
    let mut p = ExecutionPositionV2::default();
    p.set_latest_block_number(21_048_889);
    assert_eq!(EngineEthRPCServer {}.block_number(&p), "1412E39");
    assert_eq!(EngineEthRPCServer {}.chain_id(), 1);
}

#[test]
fn block_tags_resolve_to_numbers() {
    let mut p = ExecutionPositionV2::default();
    p.update_position(41, [0; 32]);
    let eth = EthRPCServer {};
    assert_eq!(eth.block_number_to_fetch(BlockNumberOrTag::Number(7), &p).unwrap(), 7);
    assert_eq!(eth.block_number_to_fetch(BlockNumberOrTag::Latest, &p).unwrap(), 41);
    let err = eth.block_number_to_fetch(BlockNumberOrTag::Pending, &p).unwrap_err();
    assert_eq!(err.code, -333333);
    assert_eq!(err.message, "This tag is not supported");
}

#[test]
fn unserved_methods_name_themselves() {
    let e = not_implemented("get_logs");
    assert_eq!(e.code, UNSUPPORTED_ERROR_CODE);
    assert_eq!(
        e.message,
        "get_logs is not implemented: depends on Portal Transaction Gossip Network"
    );
}

#[test]
fn jwt_secret_comes_from_the_given_file_or_the_default() {
    assert_eq!(
        EngineAuthServer::jwt_secret_source(Some("/secrets/jwt".to_string())),
        JwtSecretSource::File("/secrets/jwt".to_string())
    );
    assert_eq!(
        EngineAuthServer::jwt_secret_source(None),
        JwtSecretSource::DataDirDefault("jwt.hex".to_string())
    );
}

#[test]
fn jwt_is_the_second_word_of_the_header() {
    assert_eq!(jwt_from_authorization("Bearer abc.def.ghi"), Some("abc.def.ghi".to_string()));
    assert_eq!(jwt_from_authorization("  Bearer \t tok  more"), Some("tok".to_string()));
    assert_eq!(jwt_from_authorization("Bearer"), None);
    assert_eq!(jwt_from_authorization("Bearer   "), None);
    assert_eq!(jwt_from_authorization(""), None);
}

#[test]
fn refused_requests_say_why() {
    assert_eq!(AuthRejection::NoJwt.body(), "Unauthorized: No JWT provided");
    assert_eq!(AuthRejection::InvalidJwt.body(), "Unauthorized: Invalid JWT");
}

#[test]
fn non_ascii_header_carries_no_token() {
    assert_eq!(jwt_from_authorization("Bearer tökén"), None);
}

#[test]
fn access_needs_a_valid_token() {
    assert_eq!(access_decision(false, true), Err(AuthRejection::NoJwt));
    assert_eq!(access_decision(true, false), Err(AuthRejection::InvalidJwt));
    assert_eq!(access_decision(true, true), Ok(()));
}
