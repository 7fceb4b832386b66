//! Configuration of the execution client: what the state database keeps,
//! which blocks are traced, and the subcommands with their arguments.
use vstd::prelude::*;
use vstd::string::StrSliceExecFns;

verus! {

/// Which blocks have their execution traces dumped.
#[derive(Debug, Clone, Copy, PartialEq, Eq)]
pub enum BlockToTrace {
    /// No block.
    Disabled,
    /// Every block.
    All,
    /// The block with this number.
    Block(u64),
}

/// Whether `option` asks for the trace of block `block_number`.
pub open spec fn traces_block(option: BlockToTrace, block_number: u64) -> bool {
    match option {
        BlockToTrace::Disabled => false,
        BlockToTrace::All => true,
        BlockToTrace::Block(n) => n == block_number,
    }
}

/// The value of a string of decimal digits.
pub open spec fn decimal_value(digits: Seq<char>) -> nat
    decreases digits.len(),
{
    if digits.len() == 0 {
        0
    } else {
        decimal_value(digits.drop_last()) * 10 + (digits.last() as nat - 48) as nat
    }
}

/// Whether `c` is a decimal digit.
pub open spec fn is_decimal_digit(c: char) -> bool {
    '0' <= c <= '9'
}

/// A non-empty string of decimal digits whose value fits in a `u64`.
pub open spec fn is_u64_decimal(digits: Seq<char>) -> bool {
    &&& digits.len() > 0
    &&& forall|i: int| 0 <= i < digits.len() ==> #[trigger] is_decimal_digit(digits[i])
    &&& decimal_value(digits) <= u64::MAX
}

/// The trace option written as `text`: "none", "all" or "block:" followed by
/// a block number in decimal; `None` for any other text.
pub open spec fn block_to_trace_named(text: Seq<char>) -> Option<BlockToTrace> {
    if text == "none"@ {
        Some(BlockToTrace::Disabled)
    } else if text == "all"@ {
        Some(BlockToTrace::All)
    } else if text.len() >= 6 && text.take(6) == "block:"@ && is_u64_decimal(text.skip(6)) {
        Some(BlockToTrace::Block(decimal_value(text.skip(6)) as u64))
    } else {
        None
    }
}

/// A single-block option traces exactly that block; the option for all
/// blocks traces every block, and the disabled one none.
pub proof fn lemma_trace_selection(n: u64, b: u64)
    ensures
        traces_block(BlockToTrace::Block(n), b) <==> b == n,
        traces_block(BlockToTrace::All, b),
        !traces_block(BlockToTrace::Disabled, b),
{
}

/// Why a trace option could not be read.
#[derive(Debug, Clone, Copy, PartialEq, Eq)]
pub enum BlockToTraceError {
    /// The text is none of "none", "all" and "block:<number>".
    InvalidOption,
}

/// The value of the decimal digits of `s` from position `start` on, if they
/// are all digits, at least one, and their value fits in a `u64`.
fn parse_u64_decimal(s: &str, start: usize) -> (res: Option<u64>)
    requires
        start <= s@.len(),
        s.is_ascii(),
    ensures
        is_u64_decimal(s@.skip(start as int)) ==> res == Some(
            decimal_value(s@.skip(start as int)) as u64,
        ),
        !is_u64_decimal(s@.skip(start as int)) ==> res is None,
{
    let len = s.unicode_len();
    if start >= len {
        return None;
    }
    let ghost digits = s@.skip(start as int);
    let mut value: u64 = 0;
    let mut i: usize = start;
    while i < len
        invariant
            start <= i <= len,
            len == s@.len(),
            digits == s@.skip(start as int),
            forall|j: int| 0 <= j < i - start ==> #[trigger] is_decimal_digit(digits[j]),
            value == decimal_value(digits.take(i - start)),
        decreases len - i,
    {
        let c = s.get_char(i);
        proof {
            assert(digits.take(i - start + 1).drop_last() =~= digits.take(i - start));
            assert(digits[i - start] == c);
        }
        if c < '0' || c > '9' {
            proof {
                assert(!is_decimal_digit(digits[i - start]));
            }
            return None;
        }
        let d = (c as u32 - 48) as u64;
        if value > (u64::MAX - d) / 10 {
            proof {
                assert(decimal_value(digits.take(i - start + 1)) > u64::MAX) by (nonlinear_arith)
                    requires
                        decimal_value(digits.take(i - start + 1)) == value * 10 + d,
                        value > (u64::MAX - d) / 10,
                        d <= 9,
                ;
                if forall|j: int| 0 <= j < digits.len() ==> #[trigger] is_decimal_digit(digits[j]) {
                    lemma_decimal_value_monotone(digits, i - start + 1);
                }
            }
            return None;
        }
        value = value * 10 + d;
        i = i + 1;
    }
    assert(digits.take(len - start) =~= digits);
    Some(value)
}

/// The value of a prefix of digits is at most that of the whole.
proof fn lemma_decimal_value_monotone(digits: Seq<char>, k: int)
    requires
        0 <= k <= digits.len(),
        forall|i: int| 0 <= i < digits.len() ==> #[trigger] is_decimal_digit(digits[i]),
    ensures
        decimal_value(digits.take(k)) <= decimal_value(digits),
    decreases digits.len() - k,
{
    if k < digits.len() {
        lemma_decimal_value_monotone(digits, k + 1);
        assert(digits.take(k + 1).drop_last() =~= digits.take(k));
        assert(is_decimal_digit(digits.take(k + 1).last()));
    } else {
        assert(digits.take(k) =~= digits);
    }
}

impl BlockToTrace {
    /// Whether the execution of block `block_number` is traced.
    pub fn should_trace(&self, block_number: u64) -> (b: bool)
        ensures
            b == traces_block(*self, block_number),
            *self == BlockToTrace::All ==> b,
            *self == BlockToTrace::Disabled ==> !b,
            forall|n: u64| *self == BlockToTrace::Block(n) ==> (b <==> block_number == n),
    {
        match self {
            BlockToTrace::Disabled => false,
            BlockToTrace::All => true,
            BlockToTrace::Block(n) => *n == block_number,
        }
    }

    /// Reads a trace option: see `block_to_trace_named`.
    pub fn parse(text: &str) -> (res: Result<BlockToTrace, BlockToTraceError>)
        ensures
            match block_to_trace_named(text@) {
                Some(option) => res == Ok::<BlockToTrace, BlockToTraceError>(option),
                None => res == Err::<BlockToTrace, BlockToTraceError>(
                    BlockToTraceError::InvalidOption,
                ),
            },
    {
        proof {
            reveal_strlit("none");
            reveal_strlit("all");
            reveal_strlit("block:");
        }
        if !text.is_ascii() {
            proof {
                assert(text@ != "none"@);
                assert(text@ != "all"@);
                if text@.len() >= 6 && text@.take(6) == "block:"@ && is_u64_decimal(text@.skip(6)) {
                    assert forall|i: int| 0 <= i < text@.len() implies '\0' <= #[trigger] text@[i] <= '\u{7f}' by {
                        if i < 6 {
                            assert(text@[i] == text@.take(6)[i]);
                        } else {
                            assert(text@[i] == text@.skip(6)[i - 6]);
                            assert(is_decimal_digit(text@.skip(6)[i - 6]));
                        }
                    }
                    assert(vstd::string::is_ascii(text));
                }
            }
            return Err(BlockToTraceError::InvalidOption);
        }
        if equals_text(text, "none") {
            return Ok(BlockToTrace::Disabled);
        }
        if equals_text(text, "all") {
            return Ok(BlockToTrace::All);
        }
        let len = text.unicode_len();
        if len >= 6 && prefix_equals(text, "block:", 6) {
            match parse_u64_decimal(text, 6) {
                Some(n) => {
                    return Ok(BlockToTrace::Block(n));
                },
                None => {
                    return Err(BlockToTraceError::InvalidOption);
                },
            }
        }
        Err(BlockToTraceError::InvalidOption)
    }
}

/// Whether the ASCII text `a` is `b`.
fn equals_text(a: &str, b: &str) -> (r: bool)
    requires
        a.is_ascii(),
        b.is_ascii(),
    ensures
        r == (a@ == b@),
{
    let n = a.unicode_len();
    if n != b.unicode_len() {
        return false;
    }
    assert(a@.take(n as int) =~= a@);
    prefix_equals(a, b, n)
}

/// Whether the first `n` characters of the ASCII text `a` are those of `b`,
/// which has `n` characters.
fn prefix_equals(a: &str, b: &str, n: usize) -> (r: bool)
    requires
        a.is_ascii(),
        b.is_ascii(),
        b@.len() == n,
        n <= a@.len(),
    ensures
        r == (a@.take(n as int) == b@),
{
    let mut i: usize = 0;
    while i < n
        invariant
            i <= n,
            n <= a@.len(),
            b@.len() == n,
            forall|j: int| 0 <= j < i ==> a@[j] == b@[j],
        decreases n - i,
    {
        if a.get_char(i) != b.get_char(i) {
            proof {
                assert(a@.take(n as int)[i as int] != b@[i as int]);
            }
            return false;
        }
        i = i + 1;
    }
    assert(a@.take(n as int) =~= b@);
    true
}

/// Configuration of the state database.
#[derive(Debug, Clone, Copy, PartialEq, Eq)]
pub struct StateConfig {
    /// Keep the trie keys changed by block execution in a cache: needed to
    /// gossip the changes of storage tries and newly created contracts.
    pub cache_contract_changes: bool,
    /// Which blocks have their execution traces dumped.
    pub block_to_trace: BlockToTrace,
    /// Keep the executed blocks.
    pub save_blocks: bool,
}

impl Default for StateConfig {
    fn default() -> (c: Self)
        ensures
            c == (StateConfig {
                cache_contract_changes: false,
                block_to_trace: BlockToTrace::Disabled,
                save_blocks: false,
            }),
    {
        StateConfig {
            cache_contract_changes: false,
            block_to_trace: BlockToTrace::Disabled,
            save_blocks: false,
        }
    }
}

impl StateConfig {
    /// The state configuration given by the command line: its trace option
    /// and whether to keep blocks; the contract changes are not cached.
    pub fn from_cli(block_to_trace: BlockToTrace, save_blocks: bool) -> (c: Self)
        ensures
            c == (StateConfig { cache_contract_changes: false, block_to_trace, save_blocks }),
    {
        StateConfig { cache_contract_changes: false, block_to_trace, save_blocks }
    }
}

/// Arguments of the `import` subcommand.
#[derive(Debug, Clone, PartialEq, Eq)]
pub struct ImportConfig {
    /// Path of the chain file.
    pub path: String,
}

/// Arguments of the `import-state` subcommand.
#[derive(Debug, Clone, PartialEq, Eq)]
pub struct ImportStateConfig {
    /// Path of the era2 state snapshot.
    pub path_to_era2: String,
}

/// Arguments of the `export-state` subcommand.
#[derive(Debug, Clone, PartialEq, Eq)]
pub struct ExportStateConfig {
    /// Path of the era2 state snapshot.
    pub path_to_era2: String,
}

impl Default for ImportConfig {
    fn default() -> (c: Self)
        ensures
            c.path@ == Seq::<char>::empty(),
    {
        ImportConfig { path: String::new() }
    }
}

impl Default for ImportStateConfig {
    fn default() -> (c: Self)
        ensures
            c.path_to_era2@ == Seq::<char>::empty(),
    {
        ImportStateConfig { path_to_era2: String::new() }
    }
}

impl Default for ExportStateConfig {
    fn default() -> (c: Self)
        ensures
            c.path_to_era2@ == Seq::<char>::empty(),
    {
        ExportStateConfig { path_to_era2: String::new() }
    }
}

/// The subcommands of the execution client.
#[derive(Debug, Clone, PartialEq, Eq)]
pub enum TrinExecutionSubCommands {
    /// Import the genesis state from a file.
    Init,
    /// Import chain data from a file.
    Import(ImportConfig),
    /// Import an era2 state snapshot, to bootstrap a new node quickly.
    ImportState(ImportStateConfig),
    /// Export the current state to an era2 file.
    ExportState(ExportStateConfig),
    /// Print what it takes to gossip the whole state onto the network.
    StateGossipStats,
}

/// Where the chain specification comes from.
#[derive(Debug, Clone, PartialEq, Eq)]
pub enum ChainSource {
    /// The built-in mainnet specification.
    Mainnet,
    /// A genesis file at this path.
    GenesisFile(String),
}

/// The chain named on the command line: "mainnet", or else the path of a
/// genesis file.
pub fn chain_source(text: &str) -> (source: ChainSource)
    ensures
        text@ == "mainnet"@ ==> source == ChainSource::Mainnet,
        text@ != "mainnet"@ ==> (source matches ChainSource::GenesisFile(path) && path@ == text@),
{
    if crate::rpc::same_chars(text, "mainnet") {
        ChainSource::Mainnet
    } else {
        ChainSource::GenesisFile(text.to_string())
    }
}

} // verus!
