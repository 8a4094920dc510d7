# auth_server

The decision logic of an OAuth 2.0 / OpenID Connect authorization server,
written in Verus and proved against its contracts: authorization requests,
consent, PKCE, the token endpoint's four grants, refresh-token rotation with
reuse detection, introspection, revocation, the device authorization grant,
RP-initiated logout with front- and back-channel notification, `/userinfo`,
signup, email verification, password reset and change, sessions and the
role hierarchy.

Layout:

- `src/` — the verified library. `common/` holds strings, scope sets,
  identifiers, timestamps, URLs, and the cryptographic and encoding
  primitives of the `sha2`, `hmac`, `base64`, `subtle`, `rand`, `uuid`,
  `chrono`, `url`, `urlencoding` and `serde_json` crates, each stated by a
  contract. `oauth/`, `oidc/`, `session/`, `signup/`, `password/`,
  `role.rs`, `user.rs` and `client.rs` hold the flows, each split into the
  steps between storage reads and writes, with exact contracts and the laws
  that relate them (`law_*` proof functions).
- `tests/` — tests of the library on concrete values.
- `app/` — the I/O around it: Postgres repositories, Redis stores, the
  endpoints run step by step (`endpoints.rs`, `flows.rs`: authorize,
  consent page and answer, the token endpoint's four grants, introspect,
  revoke, device authorization and verification, logout, `/userinfo`,
  signup, email verification, password reset request and redemption,
  password change), their HTTP routes (`routes.rs`), the refresh-token
  sweep and back-channel delivery. The client registry, JWT signing and
  validation and the password hasher belong to the host application and
  come in through the `Host` trait.

Identifiers are 128-bit values; instants are microseconds since the Unix
epoch, UTC.
