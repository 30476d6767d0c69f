# rustlens

The decision logic of a Kubernetes cluster browser, written in Verus and
verified: what the lists show and in which order, how the watch cache follows
the cluster, what each detail window contains, how the log parser counts rule
matches, what the token, base64, YAML/JSON and IP tools produce, and which
requests the cluster actions send.

- `src/` — the verified library. Each module states its behaviour in
  `requires`/`ensures` over spec functions; calls into outside crates
  (base64, serde_json, serde_yaml, hmac/sha2, regex, ipnetwork, uuid,
  chrono) go through small trusted wrappers whose contracts are documented
  where they stand.
- `tests/` — executable tests of the library.
- `app/` — a command-line front end: reads the settings and the command
  line, talks to the cluster through `kube`, runs `kubectl`, and prints what
  the library decides.
