use std::path::PathBuf;
use scalar::node::{
    buffer_stake_overridden, check_consensus_config, p2p_anemo_config, p2p_server_name,
    resolve_supported_protocol_versions, start_db_checkpoint, state_snapshot_enabled,
    tombstone_pruning_killswitch, AnemoConfig, DbCheckpointConfig, NodeStartError, QuicConfig,
    UPLOAD_INTERVAL_SECS,
};
use scalar::validator::{
    consensus_client_kind, max_pending_local_submissions, max_tx_per_checkpoint,
    next_reconfiguration_timestamp_ms, supported_providers, try_supported_providers, validate_jwk,
    ConsensusClientKind, ConsensusProtocol, Jwk, JwkCandidate, JwkFetchOutcome, JwkId, JwkUpdater,
    JwkUpdaterAction, OidcProvider, JWK_RETRY_SECS, MAX_JWK_KEYS_PER_FETCH,
};

#[test]
fn node_needs_consensus_config() {
    assert!(check_consensus_config(true).is_ok());
    assert!(matches!(check_consensus_config(false), Err(NodeStartError::MissingConsensusConfig)));
}

#[test]
fn protocol_versions_default() {
    assert_eq!(resolve_supported_protocol_versions(None, (1, 9)), (1, 9));
    assert_eq!(resolve_supported_protocol_versions(Some((2, 3)), (1, 9)), (2, 3));
}

#[test]
fn buffer_stake_and_pruning_decisions() {
    assert!(buffer_stake_overridden(5000, 7500));
    assert!(!buffer_stake_overridden(7500, 7500));
    assert!(tombstone_pruning_killswitch(false, false));
    assert!(!tombstone_pruning_killswitch(true, false));
    assert!(tombstone_pruning_killswitch(true, true));
    assert!(state_snapshot_enabled(&Some(1u8)));
    assert!(!state_snapshot_enabled::<u8>(&None));
}

fn db_config(path: Option<&str>, store: Option<u8>, at_end: bool, prune: Option<bool>) -> DbCheckpointConfig<u8> {
    DbCheckpointConfig {
        perform_db_checkpoints_at_epoch_end: at_end,
        checkpoint_path: path.map(PathBuf::from),
        object_store_config: store,
        perform_index_db_checkpoints_at_epoch_end: None,
        prune_and_compact_before_upload: prune,
    }
}

#[test]
fn db_checkpoint_without_store_or_snapshots_has_no_handler() {
    let (config, plan) = start_db_checkpoint(db_config(None, None, false, None), PathBuf::from("/db/cp"), false);
    assert_eq!(config.checkpoint_path, Some(PathBuf::from("/db/cp")));
    assert!(!config.perform_db_checkpoints_at_epoch_end);
    assert!(plan.is_none());
}

#[test]
fn db_checkpoint_with_snapshots_checkpoints_at_epoch_end() {
    let (config, plan) = start_db_checkpoint(db_config(None, None, false, None), PathBuf::from("/db/cp"), true);
    assert!(config.perform_db_checkpoints_at_epoch_end);
    let plan = plan.unwrap();
    assert_eq!(plan.upload_interval_secs, UPLOAD_INTERVAL_SECS);
    assert_eq!(plan.upload_interval_secs, 60);
    assert!(plan.prune_and_compact_before_upload);
    assert!(plan.state_snapshot_enabled);
}

#[test]
fn db_checkpoint_with_configured_path_is_kept() {
    let (config, plan) = start_db_checkpoint(db_config(Some("/mine"), Some(3), false, Some(false)), PathBuf::from("/db/cp"), true);
    assert_eq!(config.checkpoint_path, Some(PathBuf::from("/mine")));
    assert!(!config.perform_db_checkpoints_at_epoch_end);
    assert_eq!(config.object_store_config, Some(3));
    assert!(!plan.unwrap().prune_and_compact_before_upload);
}

#[test]
fn p2p_defaults_fill_unset_settings() {
    let c = p2p_anemo_config(None);
    assert_eq!(c.max_frame_size, Some(1 << 30));
    let q = c.quic.unwrap();
    assert_eq!(q.socket_send_buffer_size, Some(20 << 20));
    assert_eq!(q.socket_receive_buffer_size, Some(20 << 20));
    assert!(q.allow_failed_socket_buffer_size_setting);
    assert_eq!(q.stream_receive_window, Some(100 << 20));
    assert_eq!(q.receive_window, Some(200 << 20));
    assert_eq!(q.send_window, Some(200 << 20));
    assert_eq!(q.crypto_buffer_size, Some(1 << 20));
    assert_eq!(q.max_idle_timeout_ms, Some(30_000));
    assert_eq!(q.keep_alive_interval_ms, Some(5_000));
}

#[test]
fn p2p_defaults_keep_configured_settings_and_are_idempotent() {
    let q = QuicConfig {
        socket_send_buffer_size: Some(1),
        socket_receive_buffer_size: None,
        allow_failed_socket_buffer_size_setting: false,
        stream_receive_window: Some(2),
        receive_window: None,
        send_window: Some(3),
        crypto_buffer_size: None,
        max_idle_timeout_ms: Some(4),
        keep_alive_interval_ms: None,
    };
    let once = p2p_anemo_config(Some(AnemoConfig { max_frame_size: Some(10), quic: Some(q) }));
    let oq = once.quic.unwrap();
    assert_eq!(once.max_frame_size, Some(1 << 30));
    assert_eq!(oq.socket_send_buffer_size, Some(1));
    assert_eq!(oq.stream_receive_window, Some(2));
    assert_eq!(oq.send_window, Some(3));
    assert_eq!(oq.max_idle_timeout_ms, Some(4));
    assert_eq!(oq.receive_window, Some(200 << 20));
    assert_eq!(p2p_anemo_config(Some(once)), once);
}

#[test]
fn p2p_server_name_has_prefix() {
    assert_eq!(p2p_server_name("35834a8a"), "scalar-35834a8a");
}

#[test]
fn validator_arithmetic() {
    assert_eq!(max_pending_local_submissions(20_000, 4), 10_000);
    assert_eq!(max_pending_local_submissions(5, 3), 3);
    assert_eq!(next_reconfiguration_timestamp_ms(1_000, 86_400_000), 86_401_000);
    assert_eq!(max_tx_per_checkpoint(10_000), 10_000);
    assert_eq!(consensus_client_kind(ConsensusProtocol::Narwhal), ConsensusClientKind::LazyNarwhal);
    assert_eq!(consensus_client_kind(ConsensusProtocol::Mysticeti), ConsensusClientKind::SharedLazyMysticeti);
}

fn google_jwk(kid: &str, n: &str, active: bool, small: bool) -> JwkCandidate {
    JwkCandidate {
        id: JwkId { iss: "https://accounts.google.com".to_string(), kid: kid.to_string() },
        jwk: Jwk { kty: "RSA".to_string(), e: "AQAB".to_string(), n: n.to_string(), alg: "RS256".to_string() },
        within_size_limit: small,
        active_in_current_epoch: active,
    }
}

fn provider(name: &str) -> OidcProvider {
    try_supported_providers(&vec![name.to_string()]).unwrap().pop().unwrap()
}

#[test]
fn providers_are_parsed_by_name() {
    let ps = try_supported_providers(&vec!["Google".to_string(), "Twitch".to_string()]).unwrap();
    assert_eq!(ps.len(), 2);
    assert!(matches!(ps[0], OidcProvider::Google));
    assert!(matches!(ps[1], OidcProvider::Twitch));
    assert!(try_supported_providers(&vec!["Google".to_string(), "Nobody".to_string()]).is_none());
    assert!(matches!(supported_providers(&vec!["Apple".to_string()])[..], [OidcProvider::Apple]));
    match provider("AwsTenant-region:us-east-1-tenant_id:pool") {
        OidcProvider::AwsTenant { region, tenant_id } => {
            assert_eq!(region, "us-east-1");
            assert_eq!(tenant_id, "pool");
        }
        _ => panic!("an AWS tenant name reads as an AWS tenant"),
    }
}

#[test]
fn providers_compare_as_providers() {
    assert!(OidcProvider::Google.same_provider(&OidcProvider::Google));
    assert!(!OidcProvider::Google.same_provider(&OidcProvider::Twitch));
    let a = OidcProvider::AwsTenant { region: "a-tenant_id:b".to_string(), tenant_id: "c".to_string() };
    let b = OidcProvider::AwsTenant { region: "a".to_string(), tenant_id: "b-tenant_id:c".to_string() };
    assert!(!a.same_provider(&b));
    assert!(a.same_provider(&OidcProvider::AwsTenant { region: "a-tenant_id:b".to_string(), tenant_id: "c".to_string() }));
}

#[test]
fn jwk_validation_checks_issuer_and_size() {
    let google = OidcProvider::Google;
    assert!(validate_jwk(&google, &google_jwk("k", "n", false, true)));
    assert!(!validate_jwk(&google, &google_jwk("k", "n", false, false)));
    assert!(!validate_jwk(&OidcProvider::Twitch, &google_jwk("k", "n", false, true)));
    let mut unknown = google_jwk("k", "n", false, true);
    unknown.id.iss = "https://unknown.example".to_string();
    assert!(!validate_jwk(&google, &unknown));
}

#[test]
fn jwk_validation_compares_aws_tenants_as_providers() {
    let mut aws = google_jwk("k", "n", false, true);
    aws.id.iss = "https://cognito-idp.us-east-1.amazonaws.com/pool".to_string();
    assert!(validate_jwk(&provider("AwsTenant-region:us-east-1-tenant_id:pool"), &aws));
    let mut other = google_jwk("k", "n", false, true);
    other.id.iss = "https://cognito-idp.a.amazonaws.com/b-tenant_id:c".to_string();
    assert!(!validate_jwk(&provider("AwsTenant-region:a-tenant_id:b-tenant_id:c"), &other));
}

#[test]
fn jwk_updater_submits_each_new_key_once() {
    let mut u = JwkUpdater::new(OidcProvider::Google, 3600);
    let fetched = vec![
        google_jwk("a", "1", false, true),
        google_jwk("a", "1", false, true),
        google_jwk("b", "2", true, true),
        google_jwk("c", "3", false, false),
        google_jwk("d", "4", false, true),
    ];
    match u.step(JwkFetchOutcome::Fetched(fetched)) {
        JwkUpdaterAction::Submit { jwks, then_fetch_after_secs, total_jwks, unique_jwks, invalid_jwks } => {
            assert_eq!(then_fetch_after_secs, 3600);
            assert_eq!((total_jwks, unique_jwks, invalid_jwks), (5, 2, 1));
            let kids: Vec<String> = jwks.iter().map(|j| j.id.kid.clone()).collect();
            assert_eq!(kids, vec!["a".to_string(), "d".to_string()]);
        }
        JwkUpdaterAction::RetryAfterSecs(_) => panic!("a successful fetch submits"),
    }
    match u.step(JwkFetchOutcome::Fetched(vec![google_jwk("a", "1", false, true), google_jwk("e", "5", false, true)])) {
        JwkUpdaterAction::Submit { jwks, .. } => {
            assert_eq!(jwks.len(), 1);
            assert_eq!(jwks[0].id.kid, "e");
        }
        JwkUpdaterAction::RetryAfterSecs(_) => panic!("a successful fetch submits"),
    }
}

#[test]
fn jwk_updater_retries_after_failure() {
    let mut u = JwkUpdater::new(OidcProvider::Google, 3600);
    assert!(matches!(u.step(JwkFetchOutcome::Failed), JwkUpdaterAction::RetryAfterSecs(s) if s == JWK_RETRY_SECS));
    assert_eq!(JWK_RETRY_SECS, 30);
}

#[test]
fn jwk_updater_keeps_at_most_a_hundred() {
    let mut u = JwkUpdater::new(OidcProvider::Google, 10);
    let fetched: Vec<JwkCandidate> = (0..150).map(|i| google_jwk(&format!("k{}", i), "n", false, true)).collect();
    match u.step(JwkFetchOutcome::Fetched(fetched)) {
        JwkUpdaterAction::Submit { jwks, unique_jwks, .. } => {
            assert_eq!(unique_jwks, 150);
            assert_eq!(jwks.len(), MAX_JWK_KEYS_PER_FETCH);
            assert_eq!(jwks[99].id.kid, "k99");
        }
        JwkUpdaterAction::RetryAfterSecs(_) => panic!("a successful fetch submits"),
    }
    match u.step(JwkFetchOutcome::Fetched(vec![google_jwk("k120", "n", false, true)])) {
        JwkUpdaterAction::Submit { jwks, .. } => assert!(jwks.is_empty()),
        JwkUpdaterAction::RetryAfterSecs(_) => panic!("a successful fetch submits"),
    }
}

#[test]
fn resolved_db_checkpoint_settings_resolve_to_themselves() {
    let (once, _) = start_db_checkpoint(db_config(None, Some(1), false, None), PathBuf::from("/db/cp"), true);
    let again = DbCheckpointConfig {
        perform_db_checkpoints_at_epoch_end: once.perform_db_checkpoints_at_epoch_end,
        checkpoint_path: once.checkpoint_path.clone(),
        object_store_config: once.object_store_config,
        perform_index_db_checkpoints_at_epoch_end: once.perform_index_db_checkpoints_at_epoch_end,
        prune_and_compact_before_upload: once.prune_and_compact_before_upload,
    };
    let (twice, _) = start_db_checkpoint(again, PathBuf::from("/elsewhere"), true);
    assert_eq!(twice.checkpoint_path, once.checkpoint_path);
    assert_eq!(twice.perform_db_checkpoints_at_epoch_end, once.perform_db_checkpoints_at_epoch_end);
}

#[test]
fn validator_needs_consensus_config() {
    assert_eq!(scalar::validator::validator_consensus_config(Some(3u8)).ok(), Some(3));
    assert!(matches!(
        scalar::validator::validator_consensus_config::<u8>(None),
        Err(NodeStartError::ValidatorMissingConsensusConfig)
    ));
}

#[test]
fn start_errors_have_the_original_messages() {
    assert_eq!(NodeStartError::MissingConsensusConfig.message(), "Missing consensus config");
    assert_eq!(
        NodeStartError::ValidatorMissingConsensusConfig.message(),
        "Validator is missing consensus config"
    );
}
