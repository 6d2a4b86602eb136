# aevum_platform_api

The Aevum platform backend as a Verus library: authentication (accounts,
sessions, password change and reset, e-mail verification, rate limiting,
backup codes, TOTP two-factor authentication, avatars, preferences, the
security center and the audit log), community profiles and notifications.

Layout:

- `src/` is the verified library. Identifiers are 128-bit integers and
  times are microseconds since the Unix epoch. Storage backends implement
  the `AuthStorage`, `CommunityStorage` and `NotificationStorage` traits
  against an abstract state; the in-memory backends are verified against
  it, and every service operation states its effect on that state (an
  operation that reads the clock or draws an id or token states it for
  some such value; its `_at` form takes them as arguments and states it
  exactly). Where
  a decision follows a call into a trait that users implement (the secret
  cipher), the decision stands in a verified function of its own that
  takes the value the call returned, with an exact contract.
  Calls into outside crates (argon2, sha2, base64, subtle, rand, uuid,
  chrono, totp-rs, serde_json) stand behind small trusted wrappers whose
  contracts say what the crates document.
- `app/` is the HTTP server (actix-web): configuration from the
  environment, routes, cookies, middleware and telemetry. It converts
  between JSON and the library's types and leaves every decision to the
  library.
- `tests/` runs the library on concrete values.
