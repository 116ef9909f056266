# scalar

The verified core of a bridge between an execution node and an external consensus
layer, and of the local test cluster that runs such nodes.

- `src/` is checked by Verus. It holds the conversions of consensus output received over
  gRPC, the namespaced transactions exchanged with external chains, the consensus client's
  submission and connection decisions, the consensus listeners, the cluster options and
  cluster builder, and the decisions a node and a validator take when they start
  (database checkpoints, peer-to-peer defaults, JWK updates).
- `app/` carries those decisions out: command-line parsing, channels, timers and
  temporary directories.
- `tests/` exercises the library on concrete values.
