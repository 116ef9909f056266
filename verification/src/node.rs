use vstd::prelude::*;
use vstd::string::StringExecFns;
use std::path::PathBuf;

verus! {

/// Errors of starting a node.
pub enum NodeStartError {
    /// The node has no consensus configuration.
    MissingConsensusConfig,
    /// The validator has no consensus configuration.
    ValidatorMissingConsensusConfig,
}

impl NodeStartError {
    /// The error's message.
    pub fn message(&self) -> (r: String)
        ensures
            match self {
                NodeStartError::MissingConsensusConfig => r@ == "Missing consensus config"@,
                NodeStartError::ValidatorMissingConsensusConfig => r@ == "Validator is missing consensus config"@,
            },
    {
        match self {
            NodeStartError::MissingConsensusConfig => String::from_str("Missing consensus config"),
            NodeStartError::ValidatorMissingConsensusConfig => String::from_str("Validator is missing consensus config"),
        }
    }
}

/// A node can only start with a consensus configuration; without one it fails with the
/// missing consensus configuration error.
pub fn check_consensus_config(has_consensus_config: bool) -> (r: Result<(), NodeStartError>)
    ensures
        has_consensus_config ==> r is Ok,
        !has_consensus_config ==> r matches Err(NodeStartError::MissingConsensusConfig),
{
    if has_consensus_config {
        Ok(())
    } else {
        Err(NodeStartError::MissingConsensusConfig)
    }
}

/// The protocol versions a node supports: the configured ones, or the system default.
pub fn resolve_supported_protocol_versions<V>(configured: Option<V>, system_default: V) -> (r: V)
    ensures
        r == match configured {
            Some(v) => v,
            None => system_default,
        },
{
    match configured {
        Some(v) => v,
        None => system_default,
    }
}

/// Whether the buffer stake for protocol upgrades is overridden for this epoch.
pub fn buffer_stake_overridden(effective_buffer_stake_bps: u64, default_buffer_stake_bps: u64) -> (r: bool)
    ensures
        r == (effective_buffer_stake_bps != default_buffer_stake_bps),
{
    effective_buffer_stake_bps != default_buffer_stake_bps
}

/// Whether tombstone pruning is switched off: always when the protocol does not
/// simplify unwrap-then-delete, else as configured.
pub fn tombstone_pruning_killswitch(simplified_unwrap_then_delete: bool, configured: bool) -> (r: bool)
    ensures
        r == (!simplified_unwrap_then_delete || configured),
{
    if !simplified_unwrap_then_delete {
        true
    } else {
        configured
    }
}

/// How often, in seconds, snapshots and database checkpoints are uploaded.
pub const UPLOAD_INTERVAL_SECS: u64 = 60;

/// Whether state snapshots are uploaded: exactly when a remote store is configured for them.
pub fn state_snapshot_enabled<R>(remote_store_config: &Option<R>) -> (r: bool)
    ensures
        r == remote_store_config is Some,
{
    remote_store_config.is_some()
}

/// Settings of database checkpoints; `S` is the object store they may be uploaded to.
pub struct DbCheckpointConfig<S> {
    pub perform_db_checkpoints_at_epoch_end: bool,
    pub checkpoint_path: Option<PathBuf>,
    pub object_store_config: Option<S>,
    pub perform_index_db_checkpoints_at_epoch_end: Option<bool>,
    pub prune_and_compact_before_upload: Option<bool>,
}

/// Resolving resolved database checkpoint settings again changes nothing, and resolved
/// settings always name a checkpoint path.
pub proof fn lemma_db_checkpoint_resolution_idempotent<S>(
    configured: DbCheckpointConfig<S>,
    default_path: PathBuf,
    state_snapshot_enabled: bool,
)
    ensures
        ({
            let once = resolved_db_checkpoint_config(configured, default_path, state_snapshot_enabled);
            &&& once.checkpoint_path is Some
            &&& resolved_db_checkpoint_config(once, default_path, state_snapshot_enabled) == once
        }),
{
}

/// Without a configured checkpoint path, the resolved settings use the default path and
/// perform checkpoints at epoch end exactly when state snapshots are enabled or the
/// configuration asks for them (a configured request is never dropped); everything else
/// is kept. With a configured path, the settings are kept as they are.
pub proof fn lemma_db_checkpoint_resolution<S>(
    configured: DbCheckpointConfig<S>,
    default_path: PathBuf,
    state_snapshot_enabled: bool,
)
    ensures
        ({
            let r = resolved_db_checkpoint_config(configured, default_path, state_snapshot_enabled);
            &&& configured.checkpoint_path is None ==> {
                &&& r.checkpoint_path == Some(default_path)
                &&& r.perform_db_checkpoints_at_epoch_end
                    == (state_snapshot_enabled || configured.perform_db_checkpoints_at_epoch_end)
                &&& configured.perform_db_checkpoints_at_epoch_end ==> r.perform_db_checkpoints_at_epoch_end
                &&& r.object_store_config == configured.object_store_config
                &&& r.perform_index_db_checkpoints_at_epoch_end
                    == configured.perform_index_db_checkpoints_at_epoch_end
                &&& r.prune_and_compact_before_upload == configured.prune_and_compact_before_upload
            }
            &&& configured.checkpoint_path is Some ==> r == configured
        }),
{
}

/// How the database checkpoint handler is to be run.
pub struct DbCheckpointHandlerPlan {
    pub upload_interval_secs: u64,
    pub prune_and_compact_before_upload: bool,
    pub state_snapshot_enabled: bool,
}

/// The database checkpoint settings a node runs with: the configured ones when they name
/// a checkpoint path; otherwise the configured ones with `default_path` as the path and
/// with checkpoints at epoch end also whenever state snapshots are enabled.
pub open spec fn resolved_db_checkpoint_config<S>(
    configured: DbCheckpointConfig<S>,
    default_path: PathBuf,
    state_snapshot_enabled: bool,
) -> DbCheckpointConfig<S> {
    if configured.checkpoint_path is None {
        DbCheckpointConfig {
            checkpoint_path: Some(default_path),
            perform_db_checkpoints_at_epoch_end: state_snapshot_enabled
                || configured.perform_db_checkpoints_at_epoch_end,
            ..configured
        }
    } else {
        configured
    }
}

/// Resolves the database checkpoint settings and decides whether a checkpoint handler
/// runs: it does unless there is neither an object store nor state snapshotting; it then
/// uploads every `UPLOAD_INTERVAL_SECS` seconds and prunes and compacts before uploading
/// unless told not to.
pub fn start_db_checkpoint<S>(
    configured: DbCheckpointConfig<S>,
    default_path: PathBuf,
    state_snapshot_enabled: bool,
) -> (r: (DbCheckpointConfig<S>, Option<DbCheckpointHandlerPlan>))
    ensures
        r.0 == resolved_db_checkpoint_config(configured, default_path, state_snapshot_enabled),
        r.0.checkpoint_path is Some,
        configured.checkpoint_path is None ==> r.0.perform_db_checkpoints_at_epoch_end
            == (state_snapshot_enabled || configured.perform_db_checkpoints_at_epoch_end),
        configured.checkpoint_path is Some ==> r.0 == configured,
        (r.1 is None) <==> (configured.object_store_config is None && !state_snapshot_enabled),
        r.1 matches Some(plan) ==> {
            &&& plan.upload_interval_secs == UPLOAD_INTERVAL_SECS
            &&& plan.state_snapshot_enabled == state_snapshot_enabled
            &&& plan.prune_and_compact_before_upload == match configured.prune_and_compact_before_upload {
                Some(b) => b,
                None => true,
            }
        },
{
    let config = if configured.checkpoint_path.is_none() {
        DbCheckpointConfig {
            checkpoint_path: Some(default_path),
            perform_db_checkpoints_at_epoch_end: if state_snapshot_enabled {
                true
            } else {
                configured.perform_db_checkpoints_at_epoch_end
            },
            ..configured
        }
    } else {
        configured
    };
    if config.object_store_config.is_none() && !state_snapshot_enabled {
        (config, None)
    } else {
        let prune_and_compact_before_upload = match config.prune_and_compact_before_upload {
            Some(b) => b,
            None => true,
        };
        let plan = DbCheckpointHandlerPlan {
            upload_interval_secs: UPLOAD_INTERVAL_SECS,
            prune_and_compact_before_upload,
            state_snapshot_enabled,
        };
        (config, Some(plan))
    }
}

/// QUIC transport settings of the peer-to-peer network.
#[derive(Clone, Copy, Debug, PartialEq, Eq, Structural)]
pub struct QuicConfig {
    pub socket_send_buffer_size: Option<usize>,
    pub socket_receive_buffer_size: Option<usize>,
    pub allow_failed_socket_buffer_size_setting: bool,
    pub stream_receive_window: Option<u64>,
    pub receive_window: Option<u64>,
    pub send_window: Option<u64>,
    pub crypto_buffer_size: Option<usize>,
    pub max_idle_timeout_ms: Option<u64>,
    pub keep_alive_interval_ms: Option<u64>,
}

/// Settings of the peer-to-peer network.
#[derive(Clone, Copy, Debug, PartialEq, Eq, Structural)]
pub struct AnemoConfig {
    pub max_frame_size: Option<usize>,
    pub quic: Option<QuicConfig>,
}

/// QUIC settings with nothing set.
pub open spec fn unset_quic() -> QuicConfig {
    QuicConfig {
        socket_send_buffer_size: None,
        socket_receive_buffer_size: None,
        allow_failed_socket_buffer_size_setting: false,
        stream_receive_window: None,
        receive_window: None,
        send_window: None,
        crypto_buffer_size: None,
        max_idle_timeout_ms: None,
        keep_alive_interval_ms: None,
    }
}

/// The value of a setting: the configured one, or the default.
pub open spec fn or_default<T>(configured: Option<T>, default: T) -> Option<T> {
    match configured {
        Some(v) => Some(v),
        None => Some(default),
    }
}

/// The QUIC settings the network runs with: every unset buffer, window and timeout gets
/// its default, and failing to set socket buffer sizes is allowed.
pub open spec fn quic_with_defaults(q: QuicConfig) -> QuicConfig {
    QuicConfig {
        socket_send_buffer_size: or_default(q.socket_send_buffer_size, 20_971_520usize),
        socket_receive_buffer_size: or_default(q.socket_receive_buffer_size, 20_971_520usize),
        allow_failed_socket_buffer_size_setting: true,
        stream_receive_window: or_default(q.stream_receive_window, 104_857_600u64),
        receive_window: or_default(q.receive_window, 209_715_200u64),
        send_window: or_default(q.send_window, 209_715_200u64),
        crypto_buffer_size: or_default(q.crypto_buffer_size, 1_048_576usize),
        max_idle_timeout_ms: or_default(q.max_idle_timeout_ms, 30_000u64),
        keep_alive_interval_ms: or_default(q.keep_alive_interval_ms, 5_000u64),
    }
}

/// The network settings the node runs with: frames of up to 1 GiB, and the QUIC
/// settings (unset ones when none are configured) with their defaults filled in.
pub open spec fn anemo_with_defaults(configured: Option<AnemoConfig>) -> AnemoConfig {
    let c = match configured {
        Some(c) => c,
        None => AnemoConfig { max_frame_size: None, quic: None },
    };
    AnemoConfig {
        max_frame_size: Some(1_073_741_824usize),
        quic: Some(quic_with_defaults(match c.quic {
            Some(q) => q,
            None => unset_quic(),
        })),
    }
}

/// Fills in the network defaults of the peer-to-peer network.
pub fn p2p_anemo_config(configured: Option<AnemoConfig>) -> (r: AnemoConfig)
    ensures
        r == anemo_with_defaults(configured),
{
    let mut anemo_config = match configured {
        Some(c) => c,
        None => AnemoConfig { max_frame_size: None, quic: None },
    };
    anemo_config.max_frame_size = Some(1_073_741_824usize);
    let mut quic_config = match anemo_config.quic {
        Some(q) => q,
        None => QuicConfig {
            socket_send_buffer_size: None,
            socket_receive_buffer_size: None,
            allow_failed_socket_buffer_size_setting: false,
            stream_receive_window: None,
            receive_window: None,
            send_window: None,
            crypto_buffer_size: None,
            max_idle_timeout_ms: None,
            keep_alive_interval_ms: None,
        },
    };
    if quic_config.socket_send_buffer_size.is_none() {
        quic_config.socket_send_buffer_size = Some(20_971_520usize);
    }
    if quic_config.socket_receive_buffer_size.is_none() {
        quic_config.socket_receive_buffer_size = Some(20_971_520usize);
    }
    quic_config.allow_failed_socket_buffer_size_setting = true;
    if quic_config.stream_receive_window.is_none() {
        quic_config.stream_receive_window = Some(104_857_600u64);
    }
    if quic_config.receive_window.is_none() {
        quic_config.receive_window = Some(209_715_200u64);
    }
    if quic_config.send_window.is_none() {
        quic_config.send_window = Some(209_715_200u64);
    }
    if quic_config.crypto_buffer_size.is_none() {
        quic_config.crypto_buffer_size = Some(1_048_576usize);
    }
    if quic_config.max_idle_timeout_ms.is_none() {
        quic_config.max_idle_timeout_ms = Some(30_000);
    }
    if quic_config.keep_alive_interval_ms.is_none() {
        quic_config.keep_alive_interval_ms = Some(5_000);
    }
    anemo_config.quic = Some(quic_config);
    anemo_config
}

/// Filling in the network defaults a second time changes nothing.
pub proof fn lemma_anemo_defaults_idempotent(configured: Option<AnemoConfig>)
    ensures
        anemo_with_defaults(Some(anemo_with_defaults(configured))) == anemo_with_defaults(configured),
{
}

/// Filling in the network defaults keeps every configured QUIC buffer, window and timeout.
pub proof fn lemma_anemo_defaults_keep_configured(q: QuicConfig, max_frame_size: Option<usize>)
    ensures
        ({
            let r = anemo_with_defaults(Some(AnemoConfig { max_frame_size, quic: Some(q) })).quic->0;
            &&& q.socket_send_buffer_size is Some ==> r.socket_send_buffer_size == q.socket_send_buffer_size
            &&& q.socket_receive_buffer_size is Some ==> r.socket_receive_buffer_size == q.socket_receive_buffer_size
            &&& q.stream_receive_window is Some ==> r.stream_receive_window == q.stream_receive_window
            &&& q.receive_window is Some ==> r.receive_window == q.receive_window
            &&& q.send_window is Some ==> r.send_window == q.send_window
            &&& q.crypto_buffer_size is Some ==> r.crypto_buffer_size == q.crypto_buffer_size
            &&& q.max_idle_timeout_ms is Some ==> r.max_idle_timeout_ms == q.max_idle_timeout_ms
            &&& q.keep_alive_interval_ms is Some ==> r.keep_alive_interval_ms == q.keep_alive_interval_ms
        }),
{
}

/// Whatever is configured, the network runs with frames of up to 1 GiB, allows failing to
/// set socket buffer sizes, and has every QUIC buffer, window and timeout set: to the
/// configured value when there is one, else to its fixed default, whether or not a QUIC
/// section was configured.
pub proof fn lemma_anemo_defaults_fill_every_field(configured: Option<AnemoConfig>)
    ensures
        ({
            let r = anemo_with_defaults(configured);
            let q: Option<QuicConfig> = match configured {
                Some(c) => c.quic,
                None => None,
            };
            &&& r.max_frame_size == Some(1_073_741_824usize)
            &&& r.quic is Some
            &&& r.quic->0.allow_failed_socket_buffer_size_setting
            &&& r.quic->0.socket_send_buffer_size == Some(match q {
                Some(qq) => match qq.socket_send_buffer_size { Some(v) => v, None => 20_971_520usize },
                None => 20_971_520usize,
            })
            &&& r.quic->0.socket_receive_buffer_size == Some(match q {
                Some(qq) => match qq.socket_receive_buffer_size { Some(v) => v, None => 20_971_520usize },
                None => 20_971_520usize,
            })
            &&& r.quic->0.crypto_buffer_size == Some(match q {
                Some(qq) => match qq.crypto_buffer_size { Some(v) => v, None => 1_048_576usize },
                None => 1_048_576usize,
            })
            &&& r.quic->0.stream_receive_window == Some(match q {
                Some(qq) => match qq.stream_receive_window { Some(v) => v, None => 104_857_600u64 },
                None => 104_857_600u64,
            })
            &&& r.quic->0.receive_window == Some(match q {
                Some(qq) => match qq.receive_window { Some(v) => v, None => 209_715_200u64 },
                None => 209_715_200u64,
            })
            &&& r.quic->0.send_window == Some(match q {
                Some(qq) => match qq.send_window { Some(v) => v, None => 209_715_200u64 },
                None => 209_715_200u64,
            })
            &&& r.quic->0.max_idle_timeout_ms == Some(match q {
                Some(qq) => match qq.max_idle_timeout_ms { Some(v) => v, None => 30_000u64 },
                None => 30_000u64,
            })
            &&& r.quic->0.keep_alive_interval_ms == Some(match q {
                Some(qq) => match qq.keep_alive_interval_ms { Some(v) => v, None => 5_000u64 },
                None => 5_000u64,
            })
        }),
{
}

/// The name the peer-to-peer server presents: `scalar-` followed by the chain identifier.
pub fn p2p_server_name(chain_identifier: &str) -> (r: String)
    ensures
        r@ == "scalar-"@ + chain_identifier@,
{
    let mut name = String::from_str("scalar-");
    name.append(chain_identifier);
    name
}

} // verus!
