# kailo_core

The decision core of the Kailo governance service, verified with Verus.

Every request that changes a tenant, a workspace, a membership or a role goes
through one admission chain: the action is evaluated against its definition,
held for approval where the policy asks for it, re-admitted on the facts of the
moment, and dispatched to a workflow under a fixed ID. Reconciliation passes
finish what a crash or an unavailable dependency left open. This crate holds the
decisions of that chain as functions over plain values, each with a contract
that Verus proves; reading the store, calling the workflow engine and serving
HTTP are left to the caller.

## Layout

- `src/contracts.rs`: the wire enums and records of the service's contract,
  with a proof that every enum reads back from its wire value.
- `src/governance.rs`, `src/targets.rs`, `src/approval.rs`, `src/dispatch.rs`:
  admission, target resolution, approval and dispatch decisions.
- `src/roles.rs`, `src/invitation.rs`, `src/lifecycle.rs`, `src/launch.rs`:
  roles and the last-admin rule, invitations and their redemption, the
  membership and scope state machines, and lifecycle workflow starts.
- `src/tasks.rs`, `src/rerun.rs`, `src/temporal.rs`, `src/workflow.rs`: task
  projection, reruns of stranded workflows, the workflow engine's answers and
  workflow IDs.
- `src/buzz.rs`, `src/signers.rs`, `src/subscription.rs`, `src/projection.rs`,
  `src/roster.rs`, `src/client_keys.rs`, `src/server_keys.rs`, `src/stream.rs`:
  the relay side: rosters, signing identities and the events and headers they
  sign, live subscriptions, identity projection and key registration.
  `src/relay_page.rs` reads a page of relay events: roster lines and the
  channels a key belongs to, sorted and each once. `src/converge.rs` decides
  the end of a roster convergence from the roster read after the send.
- `src/reconcile.rs`, `src/bootstrap.rs`, `src/platform.rs`, `src/config.rs`,
  `src/oidc.rs`, `src/service.rs`, `src/views.rs`, `src/paging.rs`,
  `src/subject.rs`: background passes, deployment bootstrap, settings, the
  service token, service authentication, read-only views and sign-in subjects.
- `src/digest.rs`, `src/ids.rs`, `src/text.rs`: digests, JSON text, UUIDs and
  text helpers, including the trusted wrappers around `sha2`, `serde_json`,
  `getrandom` and `uuid`. The other trusted wrappers are those around `nostr`
  (event parsing, checking and signing, key parsing, public keys), `base64`
  and `url` in `src/client_keys.rs` and `src/signers.rs`.
- `app/`: the command-line edge (bootstrap arguments, settings check, relay
  message reading).
- `tests/`: tests on concrete values.
