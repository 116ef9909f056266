use vstd::prelude::*;
use vstd::string::StringExecFns;
use crate::builder::{BuilderModel, GenesisConfig, GenesisSource, LocalClusterBuilder, empty_model};
use crate::cluster_config::{Env, LocalClusterConfig};

verus! {

/// Chooses the kind of cluster the options ask for.
pub struct ClusterFactory;

impl ClusterFactory {
    /// Whether the options ask for a new local cluster (rather than a remote running one).
    pub fn starts_local_cluster(options: &LocalClusterConfig) -> (r: bool)
        ensures
            r == (options.env == Env::NewLocal),
    {
        options.env == Env::NewLocal
    }
}

/// The full node and faucet URLs of a remote running cluster.
pub open spec fn remote_urls(options: LocalClusterConfig) -> (Seq<char>, Seq<char>) {
    match options.env {
        Env::Devnet => ("https://rpc.devnet.sui.io:443"@, "https://faucet.devnet.sui.io:443"@),
        Env::Staging => ("https://fullnode.staging.sui.io:443"@, "https://faucet.staging.sui.io:443"@),
        Env::Ci => ("https://fullnode.ci.sui.io:443"@, "https://faucet.ci.sui.io:443"@),
        Env::CiNomad => ("https://fullnode.nomad.ci.sui.io:443"@, "https://faucet.nomad.ci.sui.io:443"@),
        Env::Testnet => ("https://fullnode.testnet.sui.io:443"@, "https://faucet.testnet.sui.io:443"@),
        _ => (
            match options.fullnode_address { Some(a) => a@, None => Seq::empty() },
            match options.faucet_address { Some(a) => a@, None => Seq::empty() },
        ),
    }
}

/// An up and running cluster deployed remotely.
pub struct RemoteRunningCluster {
    pub fullnode_url: String,
    pub faucet_url: String,
}

impl RemoteRunningCluster {
    /// The cluster the options point at: the well-known full node and faucet of the
    /// chosen network, or the given addresses for a custom remote one. A new local
    /// cluster is not remote, and a custom remote one needs both addresses.
    pub fn from_options(options: &LocalClusterConfig) -> (r: Self)
        requires
            options.env != Env::NewLocal,
            options.env == Env::CustomRemote ==> options.fullnode_address is Some
                && options.faucet_address is Some,
        ensures
            (r.fullnode_url@, r.faucet_url@) == remote_urls(*options),
    {
        let (fullnode_url, faucet_url) = match options.env {
            Env::Devnet => (
                String::from_str("https://rpc.devnet.sui.io:443"),
                String::from_str("https://faucet.devnet.sui.io:443"),
            ),
            Env::Staging => (
                String::from_str("https://fullnode.staging.sui.io:443"),
                String::from_str("https://faucet.staging.sui.io:443"),
            ),
            Env::Ci => (
                String::from_str("https://fullnode.ci.sui.io:443"),
                String::from_str("https://faucet.ci.sui.io:443"),
            ),
            Env::CiNomad => (
                String::from_str("https://fullnode.nomad.ci.sui.io:443"),
                String::from_str("https://faucet.nomad.ci.sui.io:443"),
            ),
            Env::Testnet => (
                String::from_str("https://fullnode.testnet.sui.io:443"),
                String::from_str("https://faucet.testnet.sui.io:443"),
            ),
            _ => {
                let fullnode = match &options.fullnode_address {
                    Some(a) => a.clone(),
                    None => String::new(),
                };
                let faucet = match &options.faucet_address {
                    Some(a) => a.clone(),
                    None => String::new(),
                };
                (fullnode, faucet)
            },
        };
        RemoteRunningCluster { fullnode_url, faucet_url }
    }
}

/// The URLs through which a full node listening on `address` is reached.
pub struct FullNodeUrls {
    pub rpc_url: String,
    pub ws_url: String,
}

/// Handle of a running full node.
pub struct FullNodeHandle;

impl FullNodeHandle {
    /// The JSON-RPC URL `http://<address>` and the websocket URL `ws://<address>` of a
    /// full node whose JSON-RPC address reads `address`.
    pub fn urls(address: &str) -> (r: FullNodeUrls)
        ensures
            r.rpc_url@ == "http://"@ + address@,
            r.ws_url@ == "ws://"@ + address@,
    {
        let mut rpc_url = String::from_str("http://");
        rpc_url.append(address);
        let mut ws_url = String::from_str("ws://");
        ws_url.append(address);
        FullNodeUrls { rpc_url, ws_url }
    }
}

/// A running test cluster: its swarm of nodes.
pub struct TestCluster<S> {
    pub swarm: S,
}

/// The genesis a new local cluster starts from when it has no network configuration:
/// one account holding a hundred gas objects, with the asked epoch duration.
pub open spec fn local_genesis(epoch_duration_ms: Option<u64>) -> GenesisConfig {
    GenesisConfig {
        source: GenesisSource::Custom { num_accounts: 1, objects_per_account: 100 },
        epoch_duration_ms,
    }
}

/// A new local cluster.
pub struct LocalNewCluster<S> {
    pub test_cluster: TestCluster<S>,
}

impl<S> LocalNewCluster<S> {
    /// The cluster's swarm.
    pub fn swarm(&self) -> (r: &S)
        ensures
            r == &self.test_cluster.swarm,
    {
        &self.test_cluster.swarm
    }

    /// Takes the first account key out of the swarm's keys for the faucet; the last key
    /// takes its place.
    pub fn take_faucet_key<K>(account_keys: &mut Vec<K>) -> (r: K)
        requires
            old(account_keys)@.len() > 0,
        ensures
            r == old(account_keys)@[0],
            final(account_keys)@ == old(account_keys)@.update(0, old(account_keys)@.last()).drop_last(),
    {
        account_keys.swap_remove(0)
    }

    /// The builder a new local cluster is made with. The cluster size and consensus port
    /// come from the options. With a configuration directory, the network configuration
    /// read from it is used when there is one (`loaded_network_config`), else the local
    /// genesis; the directory is kept. Without one, the local genesis is used with the
    /// asked epoch duration. An epoch duration cannot be asked together with a directory.
    pub fn cluster_builder<N>(options: &LocalClusterConfig, loaded_network_config: Option<N>) -> (r: LocalClusterBuilder<N>)
        requires
            options.config_dir is Some ==> options.epoch_duration_ms is None,
        ensures
            r@ == (BuilderModel {
                num_validators: options.cluster_size,
                consensus_grpc_port: options.consensus_grpc_port,
                genesis_config: if options.config_dir is Some && loaded_network_config is Some {
                    None
                } else {
                    Some(local_genesis(options.epoch_duration_ms))
                },
                network_config: if options.config_dir is Some { loaded_network_config } else { None },
                config_dir: options.config_dir,
                ..empty_model::<N>()
            }),
    {
        let mut builder: LocalClusterBuilder<N> = LocalClusterBuilder::new();
        if let Some(size) = options.cluster_size {
            builder = builder.with_num_validators(size);
        }
        builder = builder.with_consensus_grpc_port(options.consensus_grpc_port);
        match &options.config_dir {
            Some(config_dir) => {
                match loaded_network_config {
                    Some(network_config) => {
                        builder = builder.set_network_config(network_config);
                    },
                    None => {
                        builder = builder.set_genesis_config(GenesisConfig::custom_genesis(1, 100));
                        if let Some(epoch_duration_ms) = options.epoch_duration_ms {
                            builder = builder.with_epoch_duration_ms(epoch_duration_ms);
                        }
                    },
                }
                builder = builder.with_config_dir(config_dir.clone());
            },
            None => {
                builder = builder.set_genesis_config(GenesisConfig::custom_genesis(1, 100));
                if let Some(epoch_duration_ms) = options.epoch_duration_ms {
                    builder = builder.with_epoch_duration_ms(epoch_duration_ms);
                }
            },
        }
        builder
    }
}

} // verus!
