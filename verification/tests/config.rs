use trin_execution::config::{
    chain_source, BlockToTrace, BlockToTraceError, ChainSource, ExportStateConfig, ImportConfig, ImportStateConfig,
    StateConfig, TrinExecutionSubCommands,
};

#[test]
fn trace_options_parse() {
    assert_eq!(BlockToTrace::parse("none"), Ok(BlockToTrace::Disabled));
    assert_eq!(BlockToTrace::parse("all"), Ok(BlockToTrace::All));
    assert_eq!(BlockToTrace::parse("block:0"), Ok(BlockToTrace::Block(0)));
    assert_eq!(BlockToTrace::parse("block:17034870"), Ok(BlockToTrace::Block(17_034_870)));
    assert_eq!(
        BlockToTrace::parse("block:18446744073709551615"),
        Ok(BlockToTrace::Block(u64::MAX))
    );
}

#[test]
fn bad_trace_options_are_refused() {
    for text in ["", "None", "block:", "block:-1", "block:1x", "block:18446744073709551616", "blocks:1", "all ", "blöck:1"] {
        assert_eq!(BlockToTrace::parse(text), Err(BlockToTraceError::InvalidOption), "{text}");
    }
}

#[test]
fn trace_selection() {
    assert!(!BlockToTrace::Disabled.should_trace(5));
    assert!(BlockToTrace::All.should_trace(5));
    assert!(BlockToTrace::Block(5).should_trace(5));
    assert!(!BlockToTrace::Block(5).should_trace(6));
}

#[test]
fn state_config_defaults_and_cli() {
    assert_eq!(
        StateConfig::default(),
        StateConfig { cache_contract_changes: false, block_to_trace: BlockToTrace::Disabled, save_blocks: false }
    );
    assert_eq!(
        StateConfig::from_cli(BlockToTrace::All, true),
        StateConfig { cache_contract_changes: false, block_to_trace: BlockToTrace::All, save_blocks: true }
    );
}

#[test]
fn subcommand_configs() {
    assert_eq!(ImportConfig::default().path, "");
    assert_eq!(ImportStateConfig::default().path_to_era2, "");
    assert_eq!(ExportStateConfig::default().path_to_era2, "");
    let cmd = TrinExecutionSubCommands::Import(ImportConfig { path: "chain.rlp".to_string() });
    assert_ne!(cmd, TrinExecutionSubCommands::Init);
}

#[test]
fn chain_names_mainnet_or_a_genesis_file() {
    assert_eq!(chain_source("mainnet"), ChainSource::Mainnet);
    assert_eq!(chain_source("./genesis.json"), ChainSource::GenesisFile("./genesis.json".to_string()));
}
