# trin_execution

The verified core of an Ethereum execution client that executes blocks
without devp2p and bridges the resulting state into the Portal network.

`src/` is a Verus library. Its public functions carry contracts that Verus
proves; the calls into `alloy_rlp`, `alloy_consensus`, `alloy_eips` and std
that it relies on are small trusted wrappers, whose contracts are believed,
not proved:

- `execution_position`: the persisted execution position, its RLP record
  format (two versions), reading a stored record and what each update writes.
- `rlp`: the RLP encodings the records use, and the `alloy_rlp` calls behind
  them.
- `block_rlp`: the `alloy_consensus` and `alloy_eips` decoders of a block's
  parts, and sender recovery.
- `storage`: the keys of the block store and its errors.
- `sync`: the decisions of the blocking and range syncers, state-root checks
  on commit, and the binary search for the beacon slot of a block.
- `era`: locating the last block of an era file from its slot indices.
- `import`: reading a chain file into its RLP-encoded blocks, each decoded
  and with recoverable transaction senders.
- `blockchain`: the canonical chain and side chains of received blocks.
- `offer_report`: tallies of state offers and the decision to offer again.
- `bridge`: the numbered content items the state bridge gossips per account.
- `stats`: sizes and counts of the state content a full walk gossips.
- `engine`, `rpc`: Engine API and JSON-RPC errors, answers and decisions.
- `config`, `bench`, `text`, `hash`, `utp`: configuration, benchmark
  schedules, number and hash text, hash comparison, uTP directions.

`app/` is the command-line program around the library: argument parsing,
file reading, JSON and JSON-RPC conversions, and logging.

`tests/` exercises the library with concrete values.
