# buwiz

The rules of the Buwiz cloud service, written in Verus and proved against their
contracts: tax-profile ownership and its event-sourced store, the authentication
product (sessions and cookies, OAuth flow bindings, key and service settings, the
verified-token cache, how identity-stack failures are reported), the workspace board
and settings, desktop OAuth policy, and the wire contracts shared with the web client.

## Layout

- `src/` — the verified library.
  - `domain/` — tax profiles (commands, events, the store and its laws), TIN parsing
    and hashing, desktop sessions, v1 sync commands, desktop OAuth client policy.
  - `contracts/` — wire types and the logic that lives on them (board layout and its
    migration, tax-profile views, redacted debug renderings).
  - `application/` — request-level decisions: browser origins, cookies, CSRF, audit
    scope, vault targets, workspace roles and settings, board edits and the board
    snapshot, OAuth provider readiness, tax-profile access.
  - `auth_product/` — runtime settings, flow bindings, session views, key settings,
    the verified-token cache, failure mappings, development-tool gates.
  - `desktop_oauth.rs`, `dev_auth.rs`, `migrate.rs`, `error.rs` — the desktop OAuth
    endpoints' checks and pages, development mail capture, the migration command, and
    the error type with its HTTP/gRPC/public renderings.
  - `crypto.rs`, `text.rs` — the calls into `sha2`, `hmac`, `base64` and `getrandom`
    behind stated contracts, and the character/string specifications everything
    else is written over.
- `tests/` — executable tests of the library.
- `app/` — the I/O shell: environment reading, JSON bodies (serde copies of the wire
  types), and desktop OAuth responses.

Public `proof fn`s named `lemma_*` state the library's laws (for example, that a
stored verification is read back, that cookie values survive a header round trip, or
that a profile's TIN identity never changes).
