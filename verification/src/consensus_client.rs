use vstd::prelude::*;
use vstd::string::StringExecFns;
use tokio::sync::mpsc::UnboundedSender;
use crate::consensus_output::{ConsensusOutput, GrpcConsensusOutput, converts_to};

verus! {

/// A batch of serialized transactions on its way to the consensus layer, tagged with the
/// chain it comes from.
pub struct ExternalTransaction {
    pub chain_id: String,
    pub tx_bytes: Vec<Vec<u8>>,
}

/// Errors of the consensus client.
pub enum ConsensusClientError {
    ExecutionError(String),
}

/// The channel end through which batches of serialized transactions reach the stream
/// towards the consensus layer.
pub type TransactionSender = UnboundedSender<Vec<Vec<u8>>>;

/// The address of the consensus server when none is configured.
pub open spec fn default_consensus_address() -> Seq<char> {
    "http://127.0.0.1:8080"@
}

/// The address to connect to: the configured one, or the default one.
pub fn consensus_address(configured: Option<String>) -> (r: String)
    ensures
        r@ == match configured {
            Some(a) => a@,
            None => default_consensus_address(),
        },
{
    match configured {
        Some(a) => a,
        None => String::from_str("http://127.0.0.1:8080"),
    }
}

/// How long, in milliseconds, the client keeps trying to connect.
pub const START_TIMEOUT_MS: u64 = 30_000;

/// How long, in milliseconds, the client waits between two connection attempts.
pub const RETRY_INTERVAL_MS: u64 = 100;

/// What to do after a connection attempt.
pub enum ConnectAction {
    /// The attempt succeeded: open the transaction stream.
    OpenStream,
    /// Wait this many milliseconds, then try again.
    RetryAfter(u64),
    /// Stop trying and report the failure.
    GiveUp,
}

/// Decides what follows a connection attempt that ended `elapsed_ms` milliseconds after
/// the first one began: once the start timeout has run out, give up, even when the attempt
/// succeeded; before that, open the stream on success and otherwise retry after the retry
/// interval.
pub fn next_connect_action(elapsed_ms: u64, connected: bool) -> (r: ConnectAction)
    ensures
        elapsed_ms >= START_TIMEOUT_MS ==> r is GiveUp,
        elapsed_ms < START_TIMEOUT_MS && connected ==> r is OpenStream,
        elapsed_ms < START_TIMEOUT_MS && !connected ==> r == ConnectAction::RetryAfter(RETRY_INTERVAL_MS),
{
    if elapsed_ms >= START_TIMEOUT_MS {
        ConnectAction::GiveUp
    } else if connected {
        ConnectAction::OpenStream
    } else {
        ConnectAction::RetryAfter(RETRY_INTERVAL_MS)
    }
}

/// The error reported when no connection could be made to `address`.
pub fn connect_error(address: &String) -> (r: ConsensusClientError)
    ensures
        r matches ConsensusClientError::ExecutionError(m)
            && m@ == "Cannot connect to consensus server at "@ + address@,
{
    let mut message = String::from_str("Cannot connect to consensus server at ");
    message.append(address.as_str());
    ConsensusClientError::ExecutionError(message)
}

/// gRPC client that submits transactions to the consensus layer.
pub struct GrpcConsensusClient<C> {
    chain_id: String,
    client: Option<C>,
    tx_sender: Option<TransactionSender>,
}

impl<C> GrpcConsensusClient<C> {
    /// The chain this client submits for.
    pub closed spec fn chain(self) -> Seq<char> {
        self.chain_id@
    }

    /// The connected client, if one is set.
    pub closed spec fn client_handle(self) -> Option<C> {
        self.client
    }

    /// The sender of the transaction stream, if one is set.
    pub closed spec fn sender(self) -> Option<TransactionSender> {
        self.tx_sender
    }

    /// A client for `chain_id` with neither a connection nor a transaction stream.
    pub fn new(chain_id: String) -> (r: Self)
        ensures
            r.chain() == chain_id@,
            r.client_handle() is None,
            r.sender() is None,
    {
        GrpcConsensusClient { chain_id, client: None, tx_sender: None }
    }

    /// Keeps `client` as the connection.
    pub fn set_client(&mut self, client: C)
        ensures
            final(self).client_handle() == Some(client),
            final(self).sender() == old(self).sender(),
            final(self).chain() == old(self).chain(),
    {
        self.client = Some(client);
    }

    /// Keeps `sender` as the sender of the transaction stream.
    pub fn set_tx_sender(&mut self, sender: TransactionSender)
        ensures
            final(self).sender() == Some(sender),
            final(self).client_handle() == old(self).client_handle(),
            final(self).chain() == old(self).chain(),
    {
        self.tx_sender = Some(sender);
    }

    /// The sender of the transaction stream, if one is set.
    pub fn get_tx_sender(&self) -> (r: Option<&TransactionSender>)
        ensures
            match self.sender() {
                Some(s) => r == Some(&s),
                None => r is None,
            },
    {
        self.tx_sender.as_ref()
    }

    /// Drops the connection; the transaction stream stays.
    pub fn clear(&mut self)
        ensures
            final(self).client_handle() is None,
            final(self).sender() == old(self).sender(),
            final(self).chain() == old(self).chain(),
    {
        self.client = None;
    }

    /// What the stream carries for a batch received from the transaction sender: the batch,
    /// tagged with this client's chain.
    pub fn external_transaction(&self, tx_bytes: Vec<Vec<u8>>) -> (r: ExternalTransaction)
        ensures
            r.chain_id@ == self.chain(),
            r.tx_bytes == tx_bytes,
    {
        ExternalTransaction { chain_id: self.chain_id.clone(), tx_bytes }
    }

    /// Submits a batch of serialized transactions: when a transaction stream is set, the
    /// batch goes, unchanged and as one message, to the stream's sender, which the caller
    /// sends it on (whether the stream still has a reader does not matter); when none is
    /// set, it fails with "Consensus client is not initialized".
    pub fn submit_to_consensus(&self, transactions_bytes: Vec<Vec<u8>>) -> (r: Result<
        (&TransactionSender, Vec<Vec<u8>>),
        ConsensusClientError,
    >)
        ensures
            self.sender() is Some <==> r is Ok,
            r matches Ok((s, batch)) ==> self.sender() == Some(*s) && batch == transactions_bytes,
            r matches Err(ConsensusClientError::ExecutionError(m))
                ==> m@ == "Consensus client is not initialized"@,
    {
        match &self.tx_sender {
            Some(sender) => Ok((sender, transactions_bytes)),
            None => Err(ConsensusClientError::ExecutionError(
                String::from_str("Consensus client is not initialized"),
            )),
        }
    }
}

/// Drives the stream of consensus outputs into the consensus handler.
pub struct ConsensusManager<C> {
    pub client: GrpcConsensusClient<C>,
}

impl<C> ConsensusManager<C> {
    /// A manager over `client`.
    pub fn new(client: GrpcConsensusClient<C>) -> (r: Self)
        ensures
            r.client == client,
    {
        ConsensusManager { client }
    }

    /// What one item of the output stream gives the handler: the converted output for a
    /// received one, nothing for a stream error.
    pub fn handle_stream_item<E>(item: Result<GrpcConsensusOutput, E>) -> (r: Option<ConsensusOutput>)
        ensures
            match item {
                Ok(g) => r matches Some(c) && converts_to(g, c),
                Err(_) => r is None,
            },
    {
        match item {
            Ok(g) => Some(g.into_consensus_output()),
            Err(_) => None,
        }
    }
}

} // verus!
