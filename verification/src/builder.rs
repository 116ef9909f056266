use vstd::prelude::*;
use std::path::PathBuf;

verus! {

/// The number of validators of a cluster when none is asked for.
pub const NUM_VALIDATOR: usize = 4;

/// Where a cluster's genesis comes from.
#[derive(Clone, Copy, Debug, PartialEq, Eq, Structural)]
pub enum GenesisSource {
    /// The genesis used for local testing.
    LocalTesting,
    /// A custom genesis with `num_accounts` accounts holding `objects_per_account` gas objects each.
    Custom { num_accounts: usize, objects_per_account: usize },
}

/// The genesis of a cluster: its source, and the epoch duration that overrides the
/// source's own when set.
#[derive(Clone, Copy, Debug, PartialEq, Eq, Structural)]
pub struct GenesisConfig {
    pub source: GenesisSource,
    pub epoch_duration_ms: Option<u64>,
}

impl GenesisConfig {
    /// The genesis used for local testing.
    pub fn for_local_testing() -> (r: Self)
        ensures
            r == (GenesisConfig { source: GenesisSource::LocalTesting, epoch_duration_ms: None }),
    {
        GenesisConfig { source: GenesisSource::LocalTesting, epoch_duration_ms: None }
    }

    /// A custom genesis with `num_accounts` accounts of `objects_per_account` gas objects.
    pub fn custom_genesis(num_accounts: usize, objects_per_account: usize) -> (r: Self)
        ensures
            r == (GenesisConfig {
                source: GenesisSource::Custom { num_accounts, objects_per_account },
                epoch_duration_ms: None,
            }),
    {
        GenesisConfig {
            source: GenesisSource::Custom { num_accounts, objects_per_account },
            epoch_duration_ms: None,
        }
    }
}

/// The settings a cluster builder has gathered.
pub struct BuilderModel<N> {
    pub genesis_config: Option<GenesisConfig>,
    pub network_config: Option<N>,
    pub num_validators: Option<usize>,
    pub consensus_grpc_port: Option<u16>,
    pub fullnode_rpc_port: Option<u16>,
    pub enable_fullnode_events: bool,
    pub num_unpruned_validators: Option<usize>,
    pub jwk_fetch_interval_ms: Option<u64>,
    pub config_dir: Option<PathBuf>,
    pub default_jwks: bool,
}

/// Builder of a local test cluster; `N` is the network configuration it may start from.
#[verifier::reject_recursive_types(N)]
pub struct LocalClusterBuilder<N> {
    genesis_config: Option<GenesisConfig>,
    network_config: Option<N>,
    num_validators: Option<usize>,
    consensus_grpc_port: Option<u16>,
    fullnode_rpc_port: Option<u16>,
    enable_fullnode_events: bool,
    num_unpruned_validators: Option<usize>,
    jwk_fetch_interval_ms: Option<u64>,
    config_dir: Option<PathBuf>,
    default_jwks: bool,
}

/// The settings of a builder that has been given none.
pub open spec fn empty_model<N>() -> BuilderModel<N> {
    BuilderModel {
        genesis_config: None,
        network_config: None,
        num_validators: None,
        consensus_grpc_port: None,
        fullnode_rpc_port: None,
        enable_fullnode_events: false,
        num_unpruned_validators: None,
        jwk_fetch_interval_ms: None,
        config_dir: None,
        default_jwks: false,
    }
}

/// The genesis after setting the epoch duration: the builder's genesis, or the local
/// testing one when it has none, with `epoch_duration_ms` set.
pub open spec fn with_epoch_duration(genesis: Option<GenesisConfig>, epoch_duration_ms: u64) -> GenesisConfig {
    match genesis {
        Some(g) => GenesisConfig { epoch_duration_ms: Some(epoch_duration_ms), ..g },
        None => GenesisConfig { source: GenesisSource::LocalTesting, epoch_duration_ms: Some(epoch_duration_ms) },
    }
}

/// Setting the epoch duration twice leaves the second duration, on the same genesis.
pub proof fn lemma_epoch_duration_last_wins(genesis: Option<GenesisConfig>, first: u64, second: u64)
    ensures
        with_epoch_duration(Some(with_epoch_duration(genesis, first)), second)
            == with_epoch_duration(genesis, second),
{
}

/// How a swarm is to be started.
pub struct SwarmPlan<N> {
    /// The number of validators.
    pub committee_size: usize,
    /// The number of full nodes.
    pub fullnode_count: usize,
    pub genesis_config: Option<GenesisConfig>,
    pub network_config: Option<N>,
    pub consensus_rpc_port: Option<u16>,
    pub fullnode_rpc_port: Option<u16>,
    pub num_unpruned_validators: Option<usize>,
    pub jwk_fetch_interval_ms: Option<u64>,
    pub dir: Option<PathBuf>,
}

impl<N> View for LocalClusterBuilder<N> {
    type V = BuilderModel<N>;

    closed spec fn view(&self) -> BuilderModel<N> {
        BuilderModel {
            genesis_config: self.genesis_config,
            network_config: self.network_config,
            num_validators: self.num_validators,
            consensus_grpc_port: self.consensus_grpc_port,
            fullnode_rpc_port: self.fullnode_rpc_port,
            enable_fullnode_events: self.enable_fullnode_events,
            num_unpruned_validators: self.num_unpruned_validators,
            jwk_fetch_interval_ms: self.jwk_fetch_interval_ms,
            config_dir: self.config_dir,
            default_jwks: self.default_jwks,
        }
    }
}

impl<N> LocalClusterBuilder<N> {
    /// A builder with no setting given.
    pub fn new() -> (r: Self)
        ensures
            r@ == empty_model::<N>(),
    {
        LocalClusterBuilder {
            genesis_config: None,
            network_config: None,
            num_validators: None,
            consensus_grpc_port: None,
            fullnode_rpc_port: None,
            enable_fullnode_events: false,
            num_unpruned_validators: None,
            jwk_fetch_interval_ms: None,
            config_dir: None,
            default_jwks: false,
        }
    }

    /// Keeps the cluster's files in `config_dir`.
    pub fn with_config_dir(self, config_dir: PathBuf) -> (r: Self)
        ensures
            r@ == (BuilderModel { config_dir: Some(config_dir), ..self@ }),
    {
        let mut b = self;
        b.config_dir = Some(config_dir);
        b
    }

    /// Makes sure the builder has a genesis: the local testing one when it has none.
    fn get_or_init_genesis_config(&mut self)
        ensures
            final(self)@ == (BuilderModel {
                genesis_config: Some(match old(self)@.genesis_config {
                    Some(g) => g,
                    None => GenesisConfig { source: GenesisSource::LocalTesting, epoch_duration_ms: None },
                }),
                ..old(self)@
            }),
    {
        if self.genesis_config.is_none() {
            self.genesis_config = Some(GenesisConfig::for_local_testing());
        }
    }

    /// Sets the epoch duration of the genesis, starting from the local testing genesis
    /// when none is set yet.
    pub fn with_epoch_duration_ms(self, epoch_duration_ms: u64) -> (r: Self)
        ensures
            r@ == (BuilderModel {
                genesis_config: Some(with_epoch_duration(self@.genesis_config, epoch_duration_ms)),
                ..self@
            }),
    {
        let mut b = self;
        b.get_or_init_genesis_config();
        match b.genesis_config {
            Some(g) => {
                b.genesis_config = Some(GenesisConfig { epoch_duration_ms: Some(epoch_duration_ms), ..g });
            },
            None => {},
        }
        b
    }

    /// Asks for `num` validators.
    pub fn with_num_validators(self, num: usize) -> (r: Self)
        ensures
            r@ == (BuilderModel { num_validators: Some(num), ..self@ }),
    {
        let mut b = self;
        b.num_validators = Some(num);
        b
    }

    /// Sets the port of the consensus gRPC service, or unsets it.
    pub fn with_consensus_grpc_port(self, port: Option<u16>) -> (r: Self)
        ensures
            r@ == (BuilderModel { consensus_grpc_port: port, ..self@ }),
    {
        let mut b = self;
        b.consensus_grpc_port = port;
        b
    }

    /// Starts from `genesis_config`; only allowed while neither a genesis nor a network
    /// configuration is set.
    pub fn set_genesis_config(self, genesis_config: GenesisConfig) -> (r: Self)
        requires
            self@.genesis_config is None,
            self@.network_config is None,
        ensures
            r@ == (BuilderModel { genesis_config: Some(genesis_config), ..self@ }),
    {
        let mut b = self;
        b.genesis_config = Some(genesis_config);
        b
    }

    /// Starts from `network_config`; only allowed while neither a genesis nor a network
    /// configuration is set.
    pub fn set_network_config(self, network_config: N) -> (r: Self)
        requires
            self@.genesis_config is None,
            self@.network_config is None,
        ensures
            r@ == (BuilderModel { network_config: Some(network_config), ..self@ }),
    {
        let mut b = self;
        b.network_config = Some(network_config);
        b
    }

    /// How the swarm is to be started: with the asked number of validators, or
    /// `NUM_VALIDATOR` when none was asked for, and one full node; the genesis, the network
    /// configuration and the directory move from the builder into the plan.
    pub fn swarm_plan(&mut self) -> (r: SwarmPlan<N>)
        requires
            old(self)@.num_validators != Some(0usize),
        ensures
            r.committee_size == match old(self)@.num_validators {
                Some(n) => n,
                None => NUM_VALIDATOR,
            },
            r.committee_size > 0,
            r.fullnode_count == 1,
            r.genesis_config == old(self)@.genesis_config,
            r.network_config == old(self)@.network_config,
            r.consensus_rpc_port == old(self)@.consensus_grpc_port,
            r.fullnode_rpc_port == old(self)@.fullnode_rpc_port,
            r.num_unpruned_validators == old(self)@.num_unpruned_validators,
            r.jwk_fetch_interval_ms == old(self)@.jwk_fetch_interval_ms,
            r.dir == old(self)@.config_dir,
            final(self)@ == (BuilderModel {
                genesis_config: None,
                network_config: None,
                config_dir: None,
                ..old(self)@
            }),
    {
        let committee_size = match self.num_validators {
            Some(n) => n,
            None => NUM_VALIDATOR,
        };
        SwarmPlan {
            committee_size,
            fullnode_count: 1,
            genesis_config: self.genesis_config.take(),
            network_config: self.network_config.take(),
            consensus_rpc_port: self.consensus_grpc_port,
            fullnode_rpc_port: self.fullnode_rpc_port,
            num_unpruned_validators: self.num_unpruned_validators,
            jwk_fetch_interval_ms: self.jwk_fetch_interval_ms,
            dir: self.config_dir.take(),
        }
    }
}

impl<N> Default for LocalClusterBuilder<N> {
    fn default() -> (r: Self)
        ensures
            r@ == empty_model::<N>(),
    {
        LocalClusterBuilder::new()
    }
}

} // verus!
