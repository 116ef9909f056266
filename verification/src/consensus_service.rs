use vstd::prelude::*;
use prometheus::Registry;
use tokio::sync::mpsc::UnboundedSender;

verus! {

#[verifier::external_type_specification]
#[verifier::external_body]
pub struct ExRegistry(Registry);

/// A transaction as exchanged with an external chain: its namespace and its bytes.
pub struct ExternalTransaction {
    pub namespace: String,
    pub tx_bytes: Vec<u8>,
}

/// The transactions of one consensus commit, as returned to external chains.
pub struct CommitedTransactions {
    pub transactions: Vec<ExternalTransaction>,
}

/// A transaction tagged with the namespace of the system it belongs to.
pub struct NsTransaction {
    pub namespace: String,
    pub transaction: Vec<u8>,
}

impl NsTransaction {
    /// Tags `transaction` with `namespace`.
    pub fn new(namespace: String, transaction: Vec<u8>) -> (r: NsTransaction)
        ensures
            r.namespace == namespace,
            r.transaction == transaction,
    {
        NsTransaction { namespace, transaction }
    }

    /// The external form of a namespaced transaction.
    pub open spec fn external_form(self) -> ExternalTransaction {
        ExternalTransaction { namespace: self.namespace, tx_bytes: self.transaction }
    }

    /// The namespaced form of an external transaction.
    pub open spec fn namespaced_form(value: ExternalTransaction) -> NsTransaction {
        NsTransaction { namespace: value.namespace, transaction: value.tx_bytes }
    }

    /// The external form: the same namespace and the same bytes.
    pub fn into_external(self) -> (r: ExternalTransaction)
        ensures
            r == self.external_form(),
    {
        let NsTransaction { namespace, transaction } = self;
        ExternalTransaction { namespace, tx_bytes: transaction }
    }

    /// The namespaced form of an external transaction: the same namespace and the same bytes.
    pub fn from_external(value: ExternalTransaction) -> (r: NsTransaction)
        ensures
            r == NsTransaction::namespaced_form(value),
    {
        let ExternalTransaction { namespace, tx_bytes } = value;
        NsTransaction { namespace, transaction: tx_bytes }
    }
}

/// Turning a namespaced transaction into its external form and back gives the same
/// transaction; turning an external transaction into its namespaced form and back gives
/// the same external transaction.
pub proof fn lemma_external_round_trip(t: NsTransaction, e: ExternalTransaction)
    ensures
        NsTransaction::namespaced_form(t.external_form()) == t,
        NsTransaction::namespaced_form(e).external_form() == e,
{
}

impl From<ExternalTransaction> for NsTransaction {
    fn from(value: ExternalTransaction) -> (r: NsTransaction) {
        NsTransaction::from_external(value)
    }
}

impl vstd::std_specs::convert::FromSpecImpl<ExternalTransaction> for NsTransaction {
    open spec fn obeys_from_spec() -> bool {
        true
    }

    open spec fn from_spec(value: ExternalTransaction) -> NsTransaction {
        NsTransaction::namespaced_form(value)
    }
}

impl From<NsTransaction> for ExternalTransaction {
    fn from(value: NsTransaction) -> (r: ExternalTransaction) {
        value.into_external()
    }
}

impl vstd::std_specs::convert::FromSpecImpl<NsTransaction> for ExternalTransaction {
    open spec fn obeys_from_spec() -> bool {
        true
    }

    open spec fn from_spec(value: NsTransaction) -> ExternalTransaction {
        value.external_form()
    }
}

/// The commit made of the given namespaced transactions, each in its external form,
/// in the same order.
pub fn from_ns_transactions(ns_transactions: Vec<NsTransaction>) -> (r: CommitedTransactions)
    ensures
        r.transactions@ == ns_transactions@.map_values(|t: NsTransaction| t.external_form()),
{
    let ghost input = ns_transactions@;
    let mut transactions: Vec<ExternalTransaction> = Vec::new();
    for t in it: ns_transactions.into_iter()
        invariant
            it.seq() == input,
            transactions@ == input.take(it.index() as int).map_values(|t: NsTransaction| t.external_form()),
    {
        assert(input.take(it.index() + 1) == input.take(it.index() as int).push(t));
        transactions.push(t.into_external());
    }
    assert(input.take(input.len() as int) =~= input);
    CommitedTransactions { transactions }
}

/// Metrics of the consensus gRPC service; it records none yet.
pub struct ConsensusServiceMetrics {}

impl ConsensusServiceMetrics {
    /// Metrics registered with `registry`; there are none to register yet.
    pub fn new(registry: &Registry) -> (r: ConsensusServiceMetrics) {
        ConsensusServiceMetrics {}
    }
}

/// The consensus gRPC service: the node's state, its consensus adapter, its validator
/// service and its epoch store, with the service's metrics.
pub struct ConsensusService<S, A, V, E> {
    pub state: S,
    pub consensus_adapter: A,
    pub validator_service: V,
    pub epoch_store: E,
    pub metrics: ConsensusServiceMetrics,
}

impl<S, A, V, E> ConsensusService<S, A, V, E> {
    /// A service over the given parts, with metrics registered with `prometheus_registry`.
    pub fn new(
        state: S,
        consensus_adapter: A,
        validator_service: V,
        epoch_store: E,
        prometheus_registry: &Registry,
    ) -> (r: Self)
        ensures
            r.state == state,
            r.consensus_adapter == consensus_adapter,
            r.validator_service == validator_service,
            r.epoch_store == epoch_store,
    {
        ConsensusService {
            state,
            consensus_adapter,
            validator_service,
            epoch_store,
            metrics: ConsensusServiceMetrics::new(prometheus_registry),
        }
    }

    /// What the service submits for one item of the incoming transaction stream: the
    /// namespaced form of a received transaction, nothing for a stream error.
    pub fn incoming_transaction<StreamError>(item: Result<ExternalTransaction, StreamError>) -> (r: Option<NsTransaction>)
        ensures
            match item {
                Ok(t) => r == Some(NsTransaction::namespaced_form(t)),
                Err(_) => r is None,
            },
    {
        match item {
            Ok(t) => Some(Self::namespaced(t)),
            Err(_) => None,
        }
    }

    /// The namespaced transaction that an incoming external transaction is submitted as.
    pub fn namespaced(transaction_in: ExternalTransaction) -> (r: NsTransaction)
        ensures
            r == NsTransaction::namespaced_form(transaction_in),
    {
        NsTransaction::from_external(transaction_in)
    }
}

impl<T: Clone> Default for ConsensusListener<T> {
    fn default() -> (r: Self)
        ensures
            r@ == Seq::<UnboundedSender<T>>::empty(),
    {
        ConsensusListener::new()
    }
}

/// Listeners of consensus results: every result is handed to each of them.
#[verifier::reject_recursive_types(T)]
pub struct ConsensusListener<T> {
    senders: Vec<UnboundedSender<T>>,
}

impl<T> View for ConsensusListener<T> {
    type V = Seq<UnboundedSender<T>>;

    closed spec fn view(&self) -> Seq<UnboundedSender<T>> {
        self.senders@
    }
}

impl<T: Clone> ConsensusListener<T> {
    /// A listener set with no listener.
    pub fn new() -> (r: Self)
        ensures
            r@ == Seq::<UnboundedSender<T>>::empty(),
    {
        ConsensusListener { senders: Vec::new() }
    }

    /// Adds a listener after the existing ones.
    pub fn add_listener(&mut self, sender: UnboundedSender<T>)
        ensures
            final(self)@ == old(self)@.push(sender),
    {
        self.senders.push(sender);
    }

    /// The number of listeners.
    pub fn len(&self) -> (r: usize)
        ensures
            r == self@.len(),
    {
        self.senders.len()
    }

    /// What the notifier sends for `result`: one copy of it to every listener, in the
    /// order the listeners were added.
    pub fn notifications(&self, result: &T) -> (r: Vec<(&UnboundedSender<T>, T)>)
        ensures
            r@.len() == self@.len(),
            forall|i: int| 0 <= i < r@.len() ==> {
                &&& *(#[trigger] r@[i]).0 == self@[i]
                &&& cloned::<T>(*result, r@[i].1)
            },
    {
        let mut out: Vec<(&UnboundedSender<T>, T)> = Vec::new();
        let mut i: usize = 0;
        while i < self.senders.len()
            invariant
                i <= self.senders@.len(),
                out@.len() == i,
                forall|k: int| 0 <= k < i ==> {
                    &&& *(#[trigger] out@[k]).0 == self.senders@[k]
                    &&& cloned::<T>(*result, out@[k].1)
                },
            decreases self.senders@.len() - i,
        {
            let copy = result.clone();
            out.push((&self.senders[i], copy));
            i = i + 1;
        }
        out
    }
}

} // verus!
