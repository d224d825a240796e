# kobe

The rules by which the Kobe operator leases, certifies and destroys cluster
capacity, as a library whose contracts Verus proves.

- `src/crd/` holds the resources that the operator keeps in the cluster's API and
  the decisions that are made from them: execution states, request digests,
  teardown manifests and receipts, sandbox pools.
- `src/certification/` takes a management pool through its certification. The
  library never talks to a cluster. Each conversation is a sequence of stages: a
  stage says what to ask, and a function takes the answer and gives the next
  stage or the verdict. `opening.rs` and `pass.rs` hold one whole pass over a
  pool, and `pass_laws.rs` what it comes to, whatever is answered.
- `src/diagnostics.rs` decides what a diagnostic bundle holds and where it goes.
- The other modules are shared pieces: plain Kubernetes objects, JSON, text,
  numerals, digests and instants.
- Files that end in `laws` or `text` prove what holds across functions, such as
  that different receipts are never hashed as the same bytes.
- `app/` asks the cluster, prints the resource definitions and uploads bundles.
- `tests/` runs the library with the real outside crates.

What is trusted rather than proved: the SHA-256 digest and its hexadecimal form,
the reading of RFC 3339 instants, the current time, the quoting of JSON strings
and the debug form of a text. Each of these is one small function with its claim
in its comment.
