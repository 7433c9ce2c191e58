# shipyard

A Tauri v2 updater backend that serves GitHub Releases, split in two:

- `src/` — the verified library (Verus): channels and platforms, asset-name
  matching, semantic-version parsing and ordering (through the `semver`
  crate), selection of the latest release of a channel, the update manifest,
  the decisions taken on each answer of the GitHub API, and the errors with
  the HTTP answers they map to.
- `app/` — the server binary: configuration file, HTTP client and caches,
  axum routes, logging. It hands plain values to the library and sends what
  the library returns.
- `tests/` — tests of the library.
