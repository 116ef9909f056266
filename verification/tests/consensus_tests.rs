use fastcrypto::encoding::{Base64, Encoding};
use fastcrypto::hash::{Blake2b256, HashFunction};
use scalar::consensus_client::{
    connect_error, consensus_address, next_connect_action, ConnectAction, ConsensusClientError,
    ConsensusManager, GrpcConsensusClient,
};
use scalar::consensus_output::{output_text, Block, ConsensusOutput, GrpcConsensusOutput, ReputationScore};
use scalar::consensus_service::{
    from_ns_transactions, ConsensusListener, ConsensusService, ExternalTransaction, NsTransaction,
};
use scalar::text::decimal_string;

fn sample_grpc_output() -> GrpcConsensusOutput {
    GrpcConsensusOutput {
        leader_round: 7,
        leader_author_index: 2,
        commit_timestamp: 1_700_000_000_000,
        commit_sub_dag_index: 42,
        commit_digest: vec![9u8; 32],
        reputation_scores: vec![
            ReputationScore { authority_index: 0, score: 10 },
            ReputationScore { authority_index: 1, score: 5 },
        ],
        blocks: vec![
            Block { authority_index: 0, transactions: vec![vec![1, 2], vec![3]] },
            Block { authority_index: 3, transactions: vec![] },
        ],
    }
}

#[test]
fn grpc_output_converts_field_by_field() {
    let out = sample_grpc_output().into_consensus_output();
    assert_eq!(out.reputation_scores, Some(vec![(0, 10), (1, 5)]));
    assert_eq!(out.leader_round, 7);
    assert_eq!(out.leader_author_index, 2);
    assert_eq!(out.commit_timestamp, 1_700_000_000_000);
    assert_eq!(out.commit_sub_dag_index, 42);
    assert_eq!(out.commit_digest, vec![9u8; 32]);
    assert_eq!(out.blocks, vec![(0, vec![vec![1, 2], vec![3]]), (3, vec![])]);
}

#[test]
fn output_getters_give_the_fields() {
    let out = sample_grpc_output().into_consensus_output();
    assert_eq!(out.leader_round(), 7);
    assert_eq!(out.leader_author_index(), 2);
    assert_eq!(out.commit_timestamp_ms(), 1_700_000_000_000);
    assert_eq!(out.commit_sub_dag_index(), 42);
    assert_eq!(out.reputation_score_sorted_desc(), Some(vec![(0, 10), (1, 5)]));
}

#[test]
fn reputation_scores_absent_stay_absent() {
    let mut out = sample_grpc_output().into_consensus_output();
    out.reputation_scores = None;
    assert_eq!(out.reputation_score_sorted_desc(), None);
}

#[test]
fn consensus_digest_uses_commit_digest_when_enabled() {
    let out = sample_grpc_output().into_consensus_output();
    assert_eq!(out.consensus_digest(true).to_vec(), vec![9u8; 32]);
}

#[test]
fn consensus_digest_is_zero_when_disabled() {
    let out = sample_grpc_output().into_consensus_output();
    assert_eq!(out.consensus_digest(false).to_vec(), vec![0u8; 32]);
}

#[test]
fn consensus_digest_is_zero_for_a_short_digest() {
    let mut out = sample_grpc_output().into_consensus_output();
    out.commit_digest = vec![1, 2, 3];
    assert_eq!(out.consensus_digest(true).to_vec(), vec![0u8; 32]);
}

#[test]
fn transactions_pair_bytes_with_decoded_values() {
    let out = sample_grpc_output().into_consensus_output();
    let txs = out.transactions(|bytes: &Vec<u8>| bytes.len());
    assert_eq!(
        txs,
        vec![(0, vec![(vec![1, 2], 2usize), (vec![3], 1usize)]), (3, vec![])]
    );
}

fn expected_block_text(transactions: &[Vec<u8>]) -> String {
    let mut data = Vec::new();
    for t in transactions {
        data.extend_from_slice(t);
    }
    Base64::encode(<Blake2b256 as HashFunction<32>>::digest(&data).digest)
}

#[test]
fn display_string_shows_leader_and_block_digests() {
    let out = sample_grpc_output().into_consensus_output();
    let expected = format!(
        "ConsensusOuput(leader_index=2, blocks=[{}, {}])",
        expected_block_text(&[vec![1, 2], vec![3]]),
        expected_block_text(&[])
    );
    assert_eq!(out.to_display_string(), expected);
}

#[test]
fn display_string_differs_from_raw_bytes() {
    let out = sample_grpc_output().into_consensus_output();
    assert!(!out.to_display_string().contains("[1, 2]"));
}

#[test]
fn display_string_without_blocks() {
    let mut out = sample_grpc_output().into_consensus_output();
    out.blocks = vec![];
    out.leader_author_index = 105;
    assert_eq!(out.to_display_string(), "ConsensusOuput(leader_index=105, blocks=[])");
}

#[test]
fn decimal_text_of_numbers() {
    assert_eq!(decimal_string(0), "0");
    assert_eq!(decimal_string(9), "9");
    assert_eq!(decimal_string(10), "10");
    assert_eq!(decimal_string(4_294_967_295), "4294967295");
    assert_eq!(decimal_string(u64::MAX), u64::MAX.to_string());
}

#[test]
fn ns_transaction_round_trip() {
    let t = NsTransaction::new("evm".to_string(), vec![1, 2, 3]);
    let e: ExternalTransaction = t.into();
    assert_eq!(e.namespace, "evm");
    assert_eq!(e.tx_bytes, vec![1, 2, 3]);
    let back = NsTransaction::from(e);
    assert_eq!(back.namespace, "evm");
    assert_eq!(back.transaction, vec![1, 2, 3]);
}

#[test]
fn commit_keeps_order_of_transactions() {
    let commit = from_ns_transactions(vec![
        NsTransaction::new("a".to_string(), vec![1]),
        NsTransaction::new("b".to_string(), vec![2, 2]),
    ]);
    assert_eq!(commit.transactions.len(), 2);
    assert_eq!(commit.transactions[0].namespace, "a");
    assert_eq!(commit.transactions[0].tx_bytes, vec![1]);
    assert_eq!(commit.transactions[1].namespace, "b");
    assert_eq!(commit.transactions[1].tx_bytes, vec![2, 2]);
}

#[test]
fn empty_commit() {
    let commit = from_ns_transactions(vec![]);
    assert!(commit.transactions.is_empty());
}

#[test]
fn service_submits_incoming_transactions_as_namespaced() {
    let registry = prometheus::Registry::new();
    let service = ConsensusService::new(1u8, 2u8, 3u8, 4u8, &registry);
    assert_eq!((service.state, service.consensus_adapter, service.validator_service, service.epoch_store), (1, 2, 3, 4));
    let ns = ConsensusService::<u8, u8, u8, u8>::namespaced(ExternalTransaction {
        namespace: "btc".to_string(),
        tx_bytes: vec![7],
    });
    assert_eq!(ns.namespace, "btc");
    assert_eq!(ns.transaction, vec![7]);
}

#[test]
fn listeners_each_receive_a_copy() {
    let mut listeners: ConsensusListener<u32> = ConsensusListener::default();
    let (tx1, mut rx1) = tokio::sync::mpsc::unbounded_channel();
    let (tx2, rx2) = tokio::sync::mpsc::unbounded_channel();
    let tx1_copy = tx1.clone();
    listeners.add_listener(tx1);
    listeners.add_listener(tx2);
    assert_eq!(listeners.len(), 2);
    drop(rx2);
    let sends = listeners.notifications(&5);
    assert_eq!(sends.len(), 2);
    assert!(sends[0].0.same_channel(&tx1_copy));
    assert_eq!((sends[0].1, sends[1].1), (5, 5));
    for (sender, copy) in sends {
        let _ = sender.send(copy);
    }
    assert_eq!(rx1.try_recv().unwrap(), 5);
}

#[test]
fn consensus_address_defaults() {
    assert_eq!(consensus_address(None), "http://127.0.0.1:8080");
    assert_eq!(consensus_address(Some("http://10.0.0.1:9000".to_string())), "http://10.0.0.1:9000");
}

#[test]
fn connection_retries_until_timeout() {
    assert!(matches!(next_connect_action(0, true), ConnectAction::OpenStream));
    assert!(matches!(next_connect_action(29_999, false), ConnectAction::RetryAfter(100)));
    assert!(matches!(next_connect_action(30_000, false), ConnectAction::GiveUp));
    assert!(matches!(next_connect_action(40_000, true), ConnectAction::GiveUp));
    assert!(matches!(next_connect_action(29_999, true), ConnectAction::OpenStream));
    let ConsensusClientError::ExecutionError(m) = connect_error(&"http://x:1".to_string());
    assert_eq!(m, "Cannot connect to consensus server at http://x:1");
}

#[test]
fn submit_fails_without_a_stream() {
    let client: GrpcConsensusClient<()> = GrpcConsensusClient::new("chain".to_string());
    assert!(client.get_tx_sender().is_none());
    match client.submit_to_consensus(vec![vec![1]]) {
        Err(ConsensusClientError::ExecutionError(m)) => assert_eq!(m, "Consensus client is not initialized"),
        Ok(_) => panic!("submission without a stream must fail"),
    }
}

#[test]
fn submit_hands_the_batch_to_the_stream() {
    let mut client: GrpcConsensusClient<u8> = GrpcConsensusClient::new("chain".to_string());
    let (tx, mut rx) = tokio::sync::mpsc::unbounded_channel();
    client.set_tx_sender(tx);
    client.set_client(1);
    client.clear();
    assert!(client.get_tx_sender().is_some());
    let (sender, batch) = client.submit_to_consensus(vec![vec![1, 2], vec![3]]).ok().unwrap();
    assert_eq!(batch, vec![vec![1, 2], vec![3]]);
    sender.send(batch).unwrap();
    assert_eq!(rx.try_recv().unwrap(), vec![vec![1, 2], vec![3]]);
    let t = client.external_transaction(vec![vec![4], vec![5, 6]]);
    assert_eq!(t.chain_id, "chain");
    assert_eq!(t.tx_bytes, vec![vec![4], vec![5, 6]]);
}

#[test]
fn submit_succeeds_even_when_the_stream_reader_is_gone() {
    let mut client: GrpcConsensusClient<u8> = GrpcConsensusClient::new("c".to_string());
    let (tx, rx) = tokio::sync::mpsc::unbounded_channel();
    client.set_tx_sender(tx);
    drop(rx);
    let (sender, batch) = client.submit_to_consensus(vec![]).ok().unwrap();
    assert!(batch.is_empty());
    assert!(sender.send(batch).is_err());
}

#[test]
fn manager_converts_stream_items() {
    let ok: Result<GrpcConsensusOutput, String> = Ok(sample_grpc_output());
    let out: Option<ConsensusOutput> = ConsensusManager::<u8>::handle_stream_item(ok);
    assert_eq!(out.unwrap().leader_round, 7);
    let err: Result<GrpcConsensusOutput, String> = Err("broken".to_string());
    assert!(ConsensusManager::<u8>::handle_stream_item(err).is_none());
    let m = ConsensusManager::new(GrpcConsensusClient::<u8>::new("c".to_string()));
    assert!(m.client.get_tx_sender().is_none());
}

#[test]
fn incoming_stream_items() {
    let ok: Result<ExternalTransaction, String> = Ok(ExternalTransaction { namespace: "n".to_string(), tx_bytes: vec![1] });
    let ns = ConsensusService::<(), (), (), ()>::incoming_transaction(ok).unwrap();
    assert_eq!(ns.namespace, "n");
    assert_eq!(ns.transaction, vec![1]);
    let err: Result<ExternalTransaction, String> = Err("e".to_string());
    assert!(ConsensusService::<(), (), (), ()>::incoming_transaction(err).is_none());
}

#[test]
fn output_text_from_block_texts() {
    assert_eq!(
        output_text(3, &vec!["AA==".to_string(), "Zm9v".to_string()]),
        "ConsensusOuput(leader_index=3, blocks=[AA==, Zm9v])"
    );
    assert_eq!(output_text(0, &vec![]), "ConsensusOuput(leader_index=0, blocks=[])");
}
