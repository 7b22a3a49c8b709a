# rustbasic_jwt

JWT authentication for the RustBasic framework, as a library with proved contracts.

`src/` is the verified library:

- `config` — the signing algorithm, token lifetime and secret selected by raw
  settings, with a verified decimal parser;
- `json` — JSON string literals through `serde_json`, decimal integers, and
  the check that custom data is JSON text;
- `claims` — token claims, their issue and their JSON text;
- `token` — signing and decoding through `jsonwebtoken`;
- `service` — the JWT service: issuing, decoding, and the blacklist decisions
  of validation, invalidation (logout) and refresh;
- `middleware` — the bearer-token check of the request guard;
- `migrations` — the schema changes of the package's migrations;
- `scaffold` — the settings, sources and `mod.rs` registrations the package
  installs into a project;
- `text` — character-level search and comparison.

`app/` wires the library into the framework: environment variables, the
blacklist's database calls, the async middleware and its task-local user,
serde on the claims, the models, the migrations' schema calls and the file
writes of the scaffolding.
