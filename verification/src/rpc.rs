//! The JSON-RPC namespaces served over HTTP, and the answers of the small
//! namespaces that hold no state.
use crate::execution_position::{ExecutionPositionV2, PositionModel};
use crate::text::{upper_hex, upper_hex_string};
use vstd::prelude::*;
use vstd::string::{StrSliceExecFns, StringExecFns};

verus! {

/// A JSON-RPC namespace.
#[derive(Debug, Clone, Copy, PartialEq, Eq, Structural)]
pub enum RpcNamespace {
    Eth,
    Net,
    Web3,
    Debug,
    Admin,
}

/// The namespaces enabled for the HTTP API.
#[derive(Debug, Clone)]
pub struct RpcNamespaces {
    pub namespaces: Vec<RpcNamespace>,
}

/// Why a namespace list could not be read.
#[derive(Debug, Clone, PartialEq, Eq)]
pub enum RpcNamespaceError {
    /// A comma-separated entry names no known namespace.
    InvalidNamespace(String),
}

/// The pieces of `s` between commas; a string without commas is one piece.
pub open spec fn split_commas(s: Seq<char>) -> Seq<Seq<char>>
    decreases s.len(),
{
    if s.len() == 0 {
        seq![Seq::empty()]
    } else {
        let init = split_commas(s.drop_last());
        if s.last() == ',' {
            init.push(Seq::empty())
        } else {
            init.update(init.len() - 1, init.last().push(s.last()))
        }
    }
}

/// The namespace a name stands for.
pub open spec fn namespace_named(name: Seq<char>) -> Option<RpcNamespace> {
    if name == seq!['e', 't', 'h'] {
        Some(RpcNamespace::Eth)
    } else if name == seq!['n', 'e', 't'] {
        Some(RpcNamespace::Net)
    } else if name == seq!['w', 'e', 'b', '3'] {
        Some(RpcNamespace::Web3)
    } else if name == seq!['d', 'e', 'b', 'u', 'g'] {
        Some(RpcNamespace::Debug)
    } else if name == seq!['a', 'd', 'm', 'i', 'n'] {
        Some(RpcNamespace::Admin)
    } else {
        None
    }
}

/// The namespaces a list of names stands for, or the first name that stands
/// for none.
pub open spec fn parse_names(names: Seq<Seq<char>>) -> Result<Seq<RpcNamespace>, Seq<char>>
    decreases names.len(),
{
    if names.len() == 0 {
        Ok(Seq::empty())
    } else {
        match parse_names(names.drop_last()) {
            Err(e) => Err(e),
            Ok(v) => match namespace_named(names.last()) {
                None => Err(names.last()),
                Some(ns) => Ok(v.push(ns)),
            },
        }
    }
}

/// The namespaces served, in the order the server mounts them: eth, net,
/// web3, debug, admin, each one where it is enabled.
pub open spec fn served_order(enabled: Seq<RpcNamespace>) -> Seq<RpcNamespace> {
    (if enabled.contains(RpcNamespace::Eth) {
        seq![RpcNamespace::Eth]
    } else {
        Seq::empty()
    }) + (if enabled.contains(RpcNamespace::Net) {
        seq![RpcNamespace::Net]
    } else {
        Seq::empty()
    }) + (if enabled.contains(RpcNamespace::Web3) {
        seq![RpcNamespace::Web3]
    } else {
        Seq::empty()
    }) + (if enabled.contains(RpcNamespace::Debug) {
        seq![RpcNamespace::Debug]
    } else {
        Seq::empty()
    }) + (if enabled.contains(RpcNamespace::Admin) {
        seq![RpcNamespace::Admin]
    } else {
        Seq::empty()
    })
}

/// The pieces of a longer prefix of `s` extend the finished pieces of a shorter one.
proof fn lemma_split_prefix(s: Seq<char>, j: int, k: int)
    requires
        0 <= j <= k <= s.len(),
    ensures
        split_commas(s.take(j)).drop_last().is_prefix_of(split_commas(s.take(k)).drop_last()),
    decreases k - j,
{
    if j < k {
        lemma_split_prefix(s, j, k - 1);
        lemma_split_step(s, k - 1);
        let a = split_commas(s.take(j)).drop_last();
        let b = split_commas(s.take(k - 1));
        let c = split_commas(s.take(k));
        lemma_split_nonempty(s.take(k - 1));
        if s[k - 1] == ',' {
            assert(c.drop_last() =~= b);
        } else {
            assert(c.drop_last() =~= b.drop_last());
        }
    }
}

/// Splitting never yields an empty list of pieces.
proof fn lemma_split_nonempty(s: Seq<char>)
    ensures
        split_commas(s).len() >= 1,
    decreases s.len(),
{
    if s.len() > 0 {
        lemma_split_nonempty(s.drop_last());
    }
}

/// How one more character changes the pieces.
proof fn lemma_split_step(s: Seq<char>, i: int)
    requires
        0 <= i < s.len(),
    ensures
        split_commas(s.take(i + 1)) == (if s[i] == ',' {
            split_commas(s.take(i)).push(Seq::empty())
        } else {
            split_commas(s.take(i)).update(
                split_commas(s.take(i)).len() - 1,
                split_commas(s.take(i)).last().push(s[i]),
            )
        }),
{
    assert(s.take(i + 1).drop_last() =~= s.take(i));
}

/// Once a list of names has a bad one, longer lists do too.
proof fn lemma_parse_error_persists(a: Seq<Seq<char>>, b: Seq<Seq<char>>)
    requires
        a.is_prefix_of(b),
        parse_names(a) is Err,
    ensures
        parse_names(b) == parse_names(a),
    decreases b.len(),
{
    if b.len() > a.len() {
        assert(a.is_prefix_of(b.drop_last()));
        lemma_parse_error_persists(a, b.drop_last());
    } else {
        assert(a =~= b);
    }
}

/// Whether two strings hold the same characters.
pub(crate) fn same_chars(a: &str, b: &str) -> (r: bool)
    ensures
        r == (a@ == b@),
{
    let n = a.unicode_len();
    if n != b.unicode_len() {
        return false;
    }
    let mut i: usize = 0;
    while i < n
        invariant
            n == a@.len(),
            n == b@.len(),
            i <= n,
            forall|j: int| 0 <= j < i ==> a@[j] == b@[j],
        decreases n - i,
    {
        if a.get_char(i) != b.get_char(i) {
            return false;
        }
        i = i + 1;
    }
    assert(a@ =~= b@);
    true
}

/// The namespace `name` stands for.
fn namespace_of(name: &str) -> (ns: Option<RpcNamespace>)
    ensures
        ns == namespace_named(name@),
{
    proof {
        reveal_strlit("eth");
        reveal_strlit("net");
        reveal_strlit("web3");
        reveal_strlit("debug");
        reveal_strlit("admin");
        assert("eth"@ =~= seq!['e', 't', 'h']);
        assert("net"@ =~= seq!['n', 'e', 't']);
        assert("web3"@ =~= seq!['w', 'e', 'b', '3']);
        assert("debug"@ =~= seq!['d', 'e', 'b', 'u', 'g']);
        assert("admin"@ =~= seq!['a', 'd', 'm', 'i', 'n']);
    }
    if same_chars(name, "eth") {
        Some(RpcNamespace::Eth)
    } else if same_chars(name, "net") {
        Some(RpcNamespace::Net)
    } else if same_chars(name, "web3") {
        Some(RpcNamespace::Web3)
    } else if same_chars(name, "debug") {
        Some(RpcNamespace::Debug)
    } else if same_chars(name, "admin") {
        Some(RpcNamespace::Admin)
    } else {
        None
    }
}

impl core::default::Default for RpcNamespaces {
    /// Only the eth namespace.
    fn default() -> (r: Self)
        ensures
            r.namespaces@ == seq![RpcNamespace::Eth],
    {
        let r = RpcNamespaces { namespaces: vec![RpcNamespace::Eth] };
        assert(r.namespaces@ =~= seq![RpcNamespace::Eth]);
        r
    }
}

impl RpcNamespaces {
    /// Reads a comma-separated list of namespace names, such as `eth,net`.
    /// Fails on the first entry that names no namespace; an empty entry names
    /// none.
    pub fn parse(s: &str) -> (res: Result<RpcNamespaces, RpcNamespaceError>)
        ensures
            match parse_names(split_commas(s@)) {
                Ok(v) => res is Ok && res->Ok_0.namespaces@ == v,
                Err(e) => res matches Err(RpcNamespaceError::InvalidNamespace(name)) && name@ == e,
            },
    {
        let n = s.unicode_len();
        let mut namespaces: Vec<RpcNamespace> = Vec::new();
        let mut start: usize = 0;
        let mut i: usize = 0;
        proof {
            assert(s@.take(0) =~= Seq::<char>::empty());
            assert(s@.subrange(0, 0) =~= Seq::<char>::empty());
            assert(split_commas(Seq::<char>::empty()).drop_last() =~= Seq::<Seq<char>>::empty());
        }
        while i < n
            invariant
                n == s@.len(),
                start <= i <= n,
                split_commas(s@.take(i as int)).len() >= 1,
                split_commas(s@.take(i as int)).last() == s@.subrange(start as int, i as int),
                parse_names(split_commas(s@.take(i as int)).drop_last()) == Ok::<
                    Seq<RpcNamespace>,
                    Seq<char>,
                >(namespaces@),
            decreases n - i,
        {
            let c = s.get_char(i);
            proof {
                lemma_split_step(s@, i as int);
                lemma_split_nonempty(s@.take(i as int));
            }
            let ghost before = split_commas(s@.take(i as int));
            let ghost after = split_commas(s@.take(i + 1));
            if c == ',' {
                let piece = s.substring_char(start, i);
                proof {
                    assert(after.drop_last() =~= before);
                    assert(before =~= before.drop_last().push(before.last()));
                }
                match namespace_of(piece) {
                    Some(ns) => {
                        namespaces.push(ns);
                    },
                    None => {
                        proof {
                            assert(parse_names(before) == Err::<Seq<RpcNamespace>, Seq<char>>(
                                piece@,
                            ));
                            lemma_split_prefix(s@, i + 1, n as int);
                            assert(s@.take(n as int) =~= s@);
                            lemma_split_nonempty(s@);
                            assert(split_commas(s@).drop_last().is_prefix_of(split_commas(s@)));
                            lemma_parse_error_persists(before, split_commas(s@));
                        }
                        return Err(RpcNamespaceError::InvalidNamespace(piece.to_string()));
                    },
                }
                start = i + 1;
                proof {
                    assert(s@.subrange(start as int, i + 1) =~= Seq::<char>::empty());
                }
            } else {
                proof {
                    assert(after.drop_last() =~= before.drop_last());
                    assert(s@.subrange(start as int, i + 1) =~= s@.subrange(
                        start as int,
                        i as int,
                    ).push(c));
                }
            }
            i = i + 1;
        }
        proof {
            assert(s@.take(n as int) =~= s@);
        }
        let piece = s.substring_char(start, n);
        let ghost all = split_commas(s@);
        proof {
            assert(all =~= all.drop_last().push(all.last()));
        }
        match namespace_of(piece) {
            Some(ns) => {
                namespaces.push(ns);
                Ok(RpcNamespaces { namespaces })
            },
            None => Err(RpcNamespaceError::InvalidNamespace(piece.to_string())),
        }
    }

    /// Whether `namespace` is enabled.
    pub fn contains(&self, namespace: &RpcNamespace) -> (r: bool)
        ensures
            r == self.namespaces@.contains(*namespace),
    {
        let mut i: usize = 0;
        while i < self.namespaces.len()
            invariant
                i <= self.namespaces@.len(),
                forall|j: int| 0 <= j < i ==> self.namespaces@[j] != *namespace,
            decreases self.namespaces@.len() - i,
        {
            if self.namespaces[i] == *namespace {
                return true;
            }
            i = i + 1;
        }
        false
    }
}

impl core::str::FromStr for RpcNamespaces {
    type Err = RpcNamespaceError;

    fn from_str(s: &str) -> (res: Result<Self, Self::Err>)
        ensures
            match parse_names(split_commas(s@)) {
                Ok(v) => res is Ok && res->Ok_0.namespaces@ == v,
                Err(e) => res matches Err(RpcNamespaceError::InvalidNamespace(name)) && name@ == e,
            },
    {
        RpcNamespaces::parse(s)
    }
}

/// The HTTP JSON-RPC server.
pub struct RpcServer {}

impl RpcServer {
    /// The namespaces the server mounts, in the order it mounts them.
    pub fn enabled_modules(namespaces: &RpcNamespaces) -> (modules: Vec<RpcNamespace>)
        ensures
            modules@ == served_order(namespaces.namespaces@),
            forall|n: RpcNamespace| #[trigger] modules@.contains(n) <==> namespaces.namespaces@.contains(
                n,
            ),
            forall|i: int, j: int|
                0 <= i < j < modules@.len() ==> mount_rank(modules@[i]) < mount_rank(modules@[j]),
    {
        let mut modules: Vec<RpcNamespace> = Vec::new();
        if namespaces.contains(&RpcNamespace::Eth) {
            modules.push(RpcNamespace::Eth);
        }
        if namespaces.contains(&RpcNamespace::Net) {
            modules.push(RpcNamespace::Net);
        }
        if namespaces.contains(&RpcNamespace::Web3) {
            modules.push(RpcNamespace::Web3);
        }
        if namespaces.contains(&RpcNamespace::Debug) {
            modules.push(RpcNamespace::Debug);
        }
        if namespaces.contains(&RpcNamespace::Admin) {
            modules.push(RpcNamespace::Admin);
        }
        assert(modules@ =~= served_order(namespaces.namespaces@));
        proof {
            lemma_served_exactly_enabled(namespaces.namespaces@);
        }
        modules
    }
}

/// The place of a namespace in the order the server mounts them.
pub open spec fn mount_rank(n: RpcNamespace) -> int {
    match n {
        RpcNamespace::Eth => 0,
        RpcNamespace::Net => 1,
        RpcNamespace::Web3 => 2,
        RpcNamespace::Debug => 3,
        RpcNamespace::Admin => 4,
    }
}

/// The namespaces of `enabled` of rank `r` in the mount order: the one of
/// that rank if it is enabled.
pub open spec fn mounted_of_rank(enabled: Seq<RpcNamespace>, n: RpcNamespace) -> Seq<RpcNamespace> {
    if enabled.contains(n) {
        seq![n]
    } else {
        Seq::empty()
    }
}

/// Each namespace is mounted exactly when it is enabled, and the mounted
/// namespaces come in the order eth, net, web3, debug, admin, each once.
pub proof fn lemma_served_exactly_enabled(enabled: Seq<RpcNamespace>)
    ensures
        forall|n: RpcNamespace| #[trigger] served_order(enabled).contains(n) <==> enabled.contains(n),
        forall|i: int, j: int|
            0 <= i < j < served_order(enabled).len() ==> mount_rank(served_order(enabled)[i])
                < mount_rank(served_order(enabled)[j]),
{
    broadcast use vstd::seq_lib::group_seq_properties;

    let s = served_order(enabled);
    let a = mounted_of_rank(enabled, RpcNamespace::Eth);
    let b = mounted_of_rank(enabled, RpcNamespace::Net);
    let c = mounted_of_rank(enabled, RpcNamespace::Web3);
    let d = mounted_of_rank(enabled, RpcNamespace::Debug);
    let e = mounted_of_rank(enabled, RpcNamespace::Admin);
    assert(s =~= a + b + c + d + e);
    assert forall|n: RpcNamespace| #[trigger] s.contains(n) <==> enabled.contains(n) by {
        assert((a + b + c + d + e).contains(n) <==> (a + b + c + d).contains(n) || e.contains(n));
        assert((a + b + c + d).contains(n) <==> (a + b + c).contains(n) || d.contains(n));
        assert((a + b + c).contains(n) <==> (a + b).contains(n) || c.contains(n));
        assert((a + b).contains(n) <==> a.contains(n) || b.contains(n));
        match n {
            RpcNamespace::Eth => {
                assert(a.contains(n) <==> enabled.contains(n)) by {
                    if enabled.contains(n) {
                        assert(a[0] == n);
                    }
                }
            },
            RpcNamespace::Net => {
                assert(b.contains(n) <==> enabled.contains(n)) by {
                    if enabled.contains(n) {
                        assert(b[0] == n);
                    }
                }
            },
            RpcNamespace::Web3 => {
                assert(c.contains(n) <==> enabled.contains(n)) by {
                    if enabled.contains(n) {
                        assert(c[0] == n);
                    }
                }
            },
            RpcNamespace::Debug => {
                assert(d.contains(n) <==> enabled.contains(n)) by {
                    if enabled.contains(n) {
                        assert(d[0] == n);
                    }
                }
            },
            RpcNamespace::Admin => {
                assert(e.contains(n) <==> enabled.contains(n)) by {
                    if enabled.contains(n) {
                        assert(e[0] == n);
                    }
                }
            },
        }
    }
    assert forall|i: int, j: int| 0 <= i < j < s.len() implies mount_rank(s[i]) < mount_rank(
        s[j],
    ) by {
        assert(forall|k: int| 0 <= k < a.len() ==> mount_rank(a[k]) == 0);
        assert(forall|k: int| 0 <= k < b.len() ==> mount_rank(b[k]) == 1);
        assert(forall|k: int| 0 <= k < c.len() ==> mount_rank(c[k]) == 2);
        assert(forall|k: int| 0 <= k < d.len() ==> mount_rank(d[k]) == 3);
        assert(forall|k: int| 0 <= k < e.len() ==> mount_rank(e[k]) == 4);
        let la = a.len() as int;
        let lb = la + b.len();
        let lc = lb + c.len();
        let ld = lc + d.len();
        assert(forall|k: int|
            0 <= k < s.len() ==> mount_rank(#[trigger] s[k]) == if k < la {
                0int
            } else if k < lb {
                1int
            } else if k < lc {
                2int
            } else if k < ld {
                3int
            } else {
                4int
            });
    }
}

/// The version string the stateless namespaces answer with.
pub open spec fn client_version_text() -> Seq<char> {
    seq!['t', 'e', 's', 't', ' ', 't', 'e', 's', 't', ' ', 't', 'e', 's', 't']
}

/// The fixed version answer of the stateless namespaces.
fn client_version_string() -> (s: String)
    ensures
        s@ == client_version_text(),
{
    proof {
        reveal_strlit("test test test");
        assert("test test test"@ =~= client_version_text());
    }
    "test test test".to_string()
}

/// Server of the `debug` namespace.
pub struct DebugRPCServer {}

impl DebugRPCServer {
    /// Answer to `debug_clientVersion`.
    pub fn client_version(&self) -> (s: String)
        ensures
            s@ == client_version_text(),
    {
        client_version_string()
    }
}

/// Server of the `net` namespace.
pub struct NetRPCServer {}

impl NetRPCServer {
    /// Answer to `net_clientVersion`.
    pub fn client_version(&self) -> (s: String)
        ensures
            s@ == client_version_text(),
    {
        client_version_string()
    }
}

/// Server of the `web3` namespace.
pub struct Web3RPCServer {}

impl Web3RPCServer {
    /// Answer to `web3_clientVersion`.
    pub fn client_version(&self) -> (s: String)
        ensures
            s@ == client_version_text(),
    {
        client_version_string()
    }

    /// Answer to `web3_sha3`: the zero hash, whatever the input.
    pub fn sha3(&self, _input: &[u8]) -> (h: [u8; 32])
        ensures
            h@ == Seq::new(32, |i: int| 0u8),
    {
        let h = [0u8; 32];
        assert(h@ =~= Seq::new(32, |i: int| 0u8));
        h
    }
}

/// The error code answered by the methods this client does not serve.
pub const UNSUPPORTED_ERROR_CODE: i32 = -333333;

/// An error answered over JSON-RPC, without data.
#[derive(Debug, Clone)]
pub struct RpcErrorObject {
    pub code: i32,
    pub message: String,
}

/// The message answered by a method that needs the Portal transaction gossip
/// network.
pub open spec fn not_implemented_text(method: Seq<char>) -> Seq<char> {
    method + " is not implemented: depends on Portal Transaction Gossip Network"@
}

/// The error answered by `method`, which needs the Portal transaction gossip
/// network, not there yet.
pub fn not_implemented(method: &str) -> (e: RpcErrorObject)
    ensures
        e.code == UNSUPPORTED_ERROR_CODE,
        e.message@ == not_implemented_text(method@),
{
    let mut message = String::from_str(method);
    message.append(" is not implemented: depends on Portal Transaction Gossip Network");
    RpcErrorObject { code: UNSUPPORTED_ERROR_CODE, message }
}

/// The message answered for a block tag that is not served.
pub open spec fn unsupported_tag_text() -> Seq<char> {
    "This tag is not supported"@
}

/// A block given by number or by tag.
#[derive(Debug, Clone, Copy, PartialEq, Eq)]
pub enum BlockNumberOrTag {
    Latest,
    Finalized,
    Safe,
    Earliest,
    Pending,
    Number(u64),
}

/// The last executed block of a position.
pub open spec fn last_executed_block(m: PositionModel) -> u64 {
    if m.next_block_number == 0 {
        0
    } else {
        (m.next_block_number - 1) as u64
    }
}

/// Server of the `eth` namespace over HTTP.
pub struct EthRPCServer {}

impl EthRPCServer {
    /// Answer to `eth_blockNumber`: the last executed block, in upper-case
    /// hexadecimal.
    pub fn block_number(&self, position: &ExecutionPositionV2) -> (s: String)
        ensures
            s@ == upper_hex(last_executed_block(position@) as nat),
    {
        upper_hex_string(position.previous_block_number())
    }

    /// The block that `eth_getBlockByNumber` reads: the given number, or the
    /// last executed block for the latest tag; the other tags are refused.
    pub fn block_number_to_fetch(&self, block: BlockNumberOrTag, position: &ExecutionPositionV2) -> (res:
        Result<u64, RpcErrorObject>)
        ensures
            match block {
                BlockNumberOrTag::Number(n) => res == Ok::<u64, RpcErrorObject>(n),
                BlockNumberOrTag::Latest => res == Ok::<u64, RpcErrorObject>(
                    last_executed_block(position@),
                ),
                _ => res is Err && res->Err_0.code == UNSUPPORTED_ERROR_CODE
                    && res->Err_0.message@ == unsupported_tag_text(),
            },
    {
        match block {
            BlockNumberOrTag::Number(n) => Ok(n),
            BlockNumberOrTag::Latest => Ok(position.previous_block_number()),
            _ => Err(
                RpcErrorObject {
                    code: UNSUPPORTED_ERROR_CODE,
                    message: "This tag is not supported".to_string(),
                },
            ),
        }
    }
}

/// Server of the `eth` methods offered under the Engine API authentication.
pub struct EngineEthRPCServer {}

impl EngineEthRPCServer {
    /// Answer to `eth_blockNumber`: the latest block known to the consensus
    /// client, in upper-case hexadecimal.
    pub fn block_number(&self, position: &ExecutionPositionV2) -> (s: String)
        ensures
            s@ == upper_hex(position@.latest_block_number as nat),
    {
        upper_hex_string(position.latest_block_number())
    }

    /// Answer to `eth_chainId`: mainnet.
    pub fn chain_id(&self) -> (id: u64)
        ensures
            id == 1,
    {
        1
    }
}

/// Name of the file, in the data directory, that holds the JWT secret of the
/// Engine API when no other file is given.
pub open spec fn default_jwt_secret_name() -> Seq<char> {
    "jwt.hex"@
}

/// Where the JWT secret of the Engine API comes from.
#[derive(Debug, Clone, PartialEq, Eq)]
pub enum JwtSecretSource {
    /// The file given on the command line.
    File(String),
    /// The file named by `default_jwt_secret_name` in the data directory,
    /// created with a random secret when missing.
    DataDirDefault(String),
}

/// The server of the Engine API, behind JWT authentication.
pub struct EngineAuthServer {}

impl EngineAuthServer {
    /// Where the JWT secret comes from: the configured file if any, else the
    /// default file of the data directory.
    pub fn jwt_secret_source(configured_path: Option<String>) -> (src: JwtSecretSource)
        ensures
            match configured_path {
                Some(path) => src == JwtSecretSource::File(path),
                None => src matches JwtSecretSource::DataDirDefault(name) && name@
                    == default_jwt_secret_name(),
            },
    {
        match configured_path {
            Some(path) => JwtSecretSource::File(path),
            None => JwtSecretSource::DataDirDefault("jwt.hex".to_string()),
        }
    }
}

/// Whether `c` is whitespace, among ASCII characters.
pub open spec fn is_ascii_whitespace(c: char) -> bool {
    c == ' ' || c == '\t' || c == '\n' || c == '\u{b}' || c == '\u{c}' || c == '\r'
}

/// The words of `s`: its longest runs of characters that are not
/// whitespace, in order.
pub open spec fn words(s: Seq<char>) -> Seq<Seq<char>>
    decreases s.len(),
{
    if s.len() == 0 {
        Seq::empty()
    } else {
        let w = words(s.drop_last());
        if is_ascii_whitespace(s.last()) {
            w
        } else if s.len() >= 2 && !is_ascii_whitespace(s[s.len() - 2]) {
            w.update(w.len() - 1, w.last().push(s.last()))
        } else {
            w.push(seq![s.last()])
        }
    }
}

/// The token of an `Authorization` header value such as `Bearer <token>`: its
/// second word, if it has one.
pub open spec fn authorization_token(value: Seq<char>) -> Option<Seq<char>> {
    if words(value).len() >= 2 {
        Some(words(value)[1])
    } else {
        None
    }
}

/// Once a whitespace character follows the second word, no later character
/// changes the first two words.
proof fn lemma_words_keep_second(s: Seq<char>, i: int, j: int)
    requires
        0 <= i < j <= s.len(),
        is_ascii_whitespace(s[i]),
        words(s.take(i)).len() >= 2,
    ensures
        words(s.take(j)).len() >= words(s.take(i)).len(),
        words(s.take(j))[1] == words(s.take(i))[1],
        j - 1 > i && !is_ascii_whitespace(s[j - 1]) ==> words(s.take(j)).len() >= words(
            s.take(i),
        ).len() + 1,
    decreases j - i,
{
    assert(s.take(j).drop_last() =~= s.take(j - 1));
    assert(s.take(j).last() == s[j - 1]);
    if j == i + 1 {
    } else {
        lemma_words_keep_second(s, i, j - 1);
        if s.take(j).len() >= 2 {
            assert(s.take(j)[s.take(j).len() - 2] == s[j - 2]);
        }
    }
}

/// The token of the `Authorization` header value `value`: its second
/// whitespace-separated word. A value that is not ASCII text carries none.
pub fn jwt_from_authorization(value: &str) -> (token: Option<String>)
    ensures
        !vstd::string::is_ascii(value) ==> token is None,
        vstd::string::is_ascii(value) ==> match authorization_token(value@) {
            Some(t) => token is Some && token->Some_0@ == t,
            None => token is None,
        },
{
    if !value.is_ascii() {
        return None;
    }
    let n = value.unicode_len();
    let mut i: usize = 0;
    let mut count: usize = 0;
    let mut in_word = false;
    let mut start: usize = 0;
    while i < n
        invariant
            vstd::string::is_ascii(value),
            n == value@.len(),
            i <= n,
            count == words(value@.take(i as int)).len(),
            count <= 2,
            start <= i,
            in_word == (i > 0 && !is_ascii_whitespace(value@[i - 1])),
            count >= 1 && in_word ==> words(value@.take(i as int)).last() == value@.subrange(
                start as int,
                i as int,
            ),
            in_word ==> count >= 1,
            count == 2 ==> in_word,
        decreases n - i,
    {
        let c = value.get_char(i);
        let ghost w = words(value@.take(i as int));
        proof {
            assert(value@.take(i + 1).drop_last() =~= value@.take(i as int));
            assert(value@.take(i + 1).last() == c);
            if i >= 1 {
                assert(value@.take(i + 1)[i - 1] == value@[i - 1]);
            }
        }
        let ws = c == ' ' || c == '\t' || c == '\n' || c == '\u{b}' || c == '\u{c}' || c == '\r';
        if ws {
            if count == 2 {
                proof {
                    assert(w.len() == 2);
                    assert(w[1] == value@.subrange(start as int, i as int));
                    if i + 1 < n {
                        lemma_words_keep_second(value@, i as int, n as int);
                    } else {
                        lemma_words_keep_second(value@, i as int, i + 1);
                    }
                    assert(value@.take(n as int) =~= value@);
                }
                return Some(value.substring_char(start, i).to_string());
            }
            in_word = false;
        } else {
            if !in_word {
                count = count + 1;
                start = i;
                in_word = true;
                proof {
                    assert(words(value@.take(i + 1)) == w.push(seq![c]));
                    assert(value@.subrange(start as int, i + 1) =~= seq![c]);
                }
            } else {
                proof {
                    assert(value@.subrange(start as int, i + 1) =~= value@.subrange(
                        start as int,
                        i as int,
                    ).push(c));
                }
            }
        }
        i = i + 1;
    }
    assert(value@.take(n as int) =~= value@);
    if count == 2 {
        Some(value.substring_char(start, n).to_string())
    } else {
        None
    }
}

/// Why a request to the Engine API is refused.
#[derive(Debug, Clone, Copy, PartialEq, Eq)]
pub enum AuthRejection {
    /// The request carries no token.
    NoJwt,
    /// The token does not validate against the secret.
    InvalidJwt,
}

/// Whether a request to the Engine API goes on to its method: it needs a
/// token (`token_present`), and the token must validate against the secret
/// (`token_valid`, which only counts where there is a token).
pub fn access_decision(token_present: bool, token_valid: bool) -> (res: Result<(), AuthRejection>)
    ensures
        !token_present ==> res == Err::<(), AuthRejection>(AuthRejection::NoJwt),
        token_present && !token_valid ==> res == Err::<(), AuthRejection>(AuthRejection::InvalidJwt),
        token_present && token_valid ==> res == Ok::<(), AuthRejection>(()),
{
    if !token_present {
        Err(AuthRejection::NoJwt)
    } else if !token_valid {
        Err(AuthRejection::InvalidJwt)
    } else {
        Ok(())
    }
}

/// The body of the answer to a refused request.
pub open spec fn auth_rejection_text(r: AuthRejection) -> Seq<char> {
    match r {
        AuthRejection::NoJwt => "Unauthorized: No JWT provided"@,
        AuthRejection::InvalidJwt => "Unauthorized: Invalid JWT"@,
    }
}

impl AuthRejection {
    /// The body of the answer to a request refused for this reason.
    pub fn body(&self) -> (b: String)
        ensures
            b@ == auth_rejection_text(*self),
    {
        match self {
            AuthRejection::NoJwt => "Unauthorized: No JWT provided".to_string(),
            AuthRejection::InvalidJwt => "Unauthorized: Invalid JWT".to_string(),
        }
    }
}

} // verus!
