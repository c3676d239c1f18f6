# weavelit-server

The decision logic of the Weavelit Server's restricted HTTPS listener and its
lifecycle workflows, written in Verus and verified against its contracts.

`src/` is the verified library:

- `startup` — startup error categories, lifecycle classification outcomes,
  the first published surface, host settings, and the shutdown result.
- `http_head`, `bytes` — the request-head reader: request-line state machine,
  bounds, header canonicalization, and body framing.
- `response`, `request_flow` — bounded responses, their rendered heads, module
  response composition, and the ordered admission chain of one request.
- `admission` — trusted peers and listener addresses, connection slots, the
  per-source rate limit, and deadline capping.
- `pem` — screening of trusted TLS material paths, metadata, and PEM envelopes.
- `credentials` — opaque bearer credentials and their domain-separated digests.
- `restore`, `log_assignment` — the one-time Restore ticket slot, the Restore
  chain's steps, and Log Module assignment resolution.
- `listener` — the accept loop and the order of an orderly shutdown: drain
  and quiescence side by side, then the database close.
- `lifecycle_gate`, `serving`, `database_handle` — the transition barrier, the
  post-write acknowledgement, serving modes, and the database handle and its
  owner.
- `audit_recovery`, `password_change` — Audit terminal recovery draining, the
  refusal and System Log report of a failed Audit delivery, and the forced
  password change workflow's stages.

`app/main.rs` reads the host configuration and TLS material and reports
startup failures. `tests/` exercises the library on concrete values.
