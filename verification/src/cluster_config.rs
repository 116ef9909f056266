use vstd::prelude::*;
use vstd::string::StringExecFns;
use std::path::PathBuf;

verus! {

#[verifier::external_type_specification]
#[verifier::external_body]
pub struct ExPathBuf(PathBuf);

/// Calls `PathBuf::clone`; the contract claims the copy is the same path.
pub assume_specification[ <PathBuf as Clone>::clone ](p: &PathBuf) -> (r: PathBuf)
    ensures
        r == *p,
;

/// The network a cluster runs on.
#[derive(Clone, Copy, Debug, PartialEq, Eq, Structural)]
pub enum Env {
    Devnet,
    Staging,
    Ci,
    CiNomad,
    Testnet,
    CustomRemote,
    NewLocal,
}

/// Options of a local test cluster.
pub struct LocalClusterConfig {
    pub env: Env,
    pub faucet_address: Option<String>,
    pub consensus_grpc_port: Option<u16>,
    pub fullnode_address: Option<String>,
    pub epoch_duration_ms: Option<u64>,
    /// URL for the indexer RPC server
    pub indexer_address: Option<String>,
    /// Use new version of indexer or not
    pub use_indexer_v2: bool,
    pub pg_address: Option<String>,
    pub use_indexer_experimental_methods: bool,
    pub config_dir: Option<PathBuf>,
    pub cluster_size: Option<usize>,
    /// URL for the GraphQL server
    pub graphql_address: Option<String>,
}

impl LocalClusterConfig {
    /// Options for a new local cluster, with every optional setting left unset.
    pub fn new_local() -> (r: Self)
        ensures
            r.env == Env::NewLocal,
            r.faucet_address is None,
            r.consensus_grpc_port is None,
            r.fullnode_address is None,
            r.epoch_duration_ms is None,
            r.indexer_address is None,
            r.use_indexer_v2 == false,
            r.pg_address is None,
            r.use_indexer_experimental_methods == false,
            r.config_dir is None,
            r.cluster_size is None,
            r.graphql_address is None,
    {
        LocalClusterConfig {
            env: Env::NewLocal,
            faucet_address: None,
            consensus_grpc_port: None,
            fullnode_address: None,
            epoch_duration_ms: None,
            indexer_address: None,
            pg_address: None,
            use_indexer_experimental_methods: false,
            config_dir: None,
            cluster_size: None,
            graphql_address: None,
            use_indexer_v2: false,
        }
    }
}

/// The text that the `regex` crate gives when it replaces, in `haystack`, every match of
/// `pattern` by `replacement`; `None` when `pattern` is not a valid expression.
pub uninterp spec fn regex_replace_all(pattern: Seq<char>, haystack: Seq<char>, replacement: Seq<char>) -> Option<Seq<char>>;

/// Calls `regex::Regex::new` on `pattern` and, when it compiles, `Regex::replace_all` on
/// `haystack` with `replacement` taken literally; the contract claims the result is the
/// named replacement text. What the replacement text is, is not stated.
#[verifier::external_body]
fn replace_all_matches(pattern: &str, haystack: &str, replacement: &str) -> (r: Option<String>)
    ensures
        r matches Some(t) ==> regex_replace_all(pattern@, haystack@, replacement@) == Some(t@),
        r is None ==> regex_replace_all(pattern@, haystack@, replacement@) is None,
{
    match regex::Regex::new(pattern) {
        Ok(re) => Some(re.replace_all(haystack, regex::NoExpand(replacement)).into_owned()),
        Err(_) => None,
    }
}

/// The expression that matches the credentials part of a Postgres address.
pub open spec fn pg_credentials_pattern() -> Seq<char> {
    ":.*@"@
}

/// What the credentials part of a Postgres address is replaced by.
pub open spec fn pg_credentials_mask() -> Seq<char> {
    ":*****@"@
}

/// The shown text of a Postgres address given the masking's outcome: the masked text, or
/// the address itself when no masking took place.
pub open spec fn pg_address_text(val: Option<Seq<char>>, masked: Option<Seq<char>>) -> Seq<char> {
    match val {
        None => "None"@,
        Some(v) => match masked {
            Some(m) => m,
            None => v,
        },
    }
}

/// The shown text of an optional Postgres address, given what masking it gave:
/// "None" when there is no address, else the masked text, or the address itself when
/// masking gave nothing.
pub fn pg_address_display(val: &Option<String>, masked: Option<String>) -> (r: String)
    ensures
        r@ == pg_address_text(
            match val { Some(v) => Some(v@), None => None },
            match masked { Some(m) => Some(m@), None => None },
        ),
{
    match val {
        None => String::from_str("None"),
        Some(v) => match masked {
            Some(m) => m,
            None => v.clone(),
        },
    }
}

/// The shown text of an optional Postgres address: "None", or the address with every
/// match of `:.*@` replaced by `:*****@`.
pub fn obfuscated_pg_address(val: &Option<String>) -> (r: String)
    ensures
        r@ == pg_address_text(
            match val { Some(v) => Some(v@), None => None },
            match val {
                Some(v) => regex_replace_all(pg_credentials_pattern(), v@, pg_credentials_mask()),
                None => None,
            },
        ),
{
    match val {
        None => pg_address_display(val, None),
        Some(v) => {
            let masked = replace_all_matches(":.*@", v.as_str(), ":*****@");
            pg_address_display(val, masked)
        },
    }
}

/// Settings of the consensus gRPC service.
pub struct GrpcConfig {}

/// An IPv4 socket address: the four octets `a.b.c.d` and the port.
#[derive(Clone, Copy, Debug, PartialEq, Eq, Structural)]
pub struct SocketAddress {
    pub a: u8,
    pub b: u8,
    pub c: u8,
    pub d: u8,
    pub port: u16,
}

/// The address the consensus gRPC service listens on by default: 0.0.0.0:9090.
pub fn default_grpc_consensus_address() -> (r: SocketAddress)
    ensures
        r == (SocketAddress { a: 0, b: 0, c: 0, d: 0, port: 9090 }),
{
    SocketAddress { a: 0, b: 0, c: 0, d: 0, port: 9090 }
}

/// A node's settings together with the address of its consensus gRPC service.
pub struct ScalarNodeConfig<N> {
    pub node_config: N,
    pub grpc_consensus_address: SocketAddress,
}

} // verus!
