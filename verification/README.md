# rust-open-service-broker

An Open Service Broker (OSB API v2) whose core is verified with Verus.

`src/` is the library. Its functions carry contracts that Verus proves,
except the small wrappers around outside calls (below), whose contracts are
believed:

- `handlers/` — the OSB endpoints (catalog, provision, update, deprovision,
  fetch, bind, unbind, `last_operation`) as functions from the broker state
  and the request to the answer and the next state. Idempotent `PUT`s
  (`200`/`201`/`409`), `410 Gone` on repeated deletes, and the lifecycle of
  asynchronous operations are stated as laws (`law_*` proof functions).
- `broker.rs` — the catalog lookups and the completion of deferred work.
- `storage/memory.rs` — instances and bindings held in `dashmap` maps.
- `operations.rs` — the tracker of asynchronous operations.
- `auth.rs`, `config.rs`, `catalog_loader.rs`, `validation.rs`, `error.rs` —
  request checks, configuration, catalog format and sample catalog, JSON
  Schema validation, and the error-to-HTTP mapping. Plan schemas that use
  `$ref` (or nest deeper than 128 levels) are refused as invalid: the
  schema library resolves a `$ref` anew at each visit, so a schema that
  refers to itself would never finish validating.
- `text.rs` — the string operations the above need (trim, split, parse).

Calls into `dashmap`, `uuid`, `base64`, `jsonschema`, `serde_json` and
`std::path` go through small `#[verifier::external_body]` wrappers whose
contracts say what those calls return; Verus believes those contracts
without proof.

`app/` is the HTTP server (axum, tokio): it reads the environment and the
catalog file, decodes and encodes JSON, holds the state behind a lock,
and waits out the delay of asynchronous operations before completing them.

`tests/` drives the library directly.
