# OpenDesk

OpenDesk is a self-hosted control plane for the RustDesk OSS server: device
inventory with sites and tags, enrollment tokens for endpoint self-registration,
deployment scripts, connection helpers, a status page, CSV export and JSON
backups, behind an administrator login.

## Layout

- `src/` is the library, written and proved with Verus. Every function states
  what it returns in its `ensures`; the laws of the library (what one call undoes,
  what the default device list never shows, how long a session lasts, what a
  token accepts, how a backup is restored) are public proof functions beside the
  functions they speak of.
  - `domain/` holds the rules: devices and their search, the CSV export, sites,
    tags, users, server configuration, sessions, enrollment tokens and check-in,
    health checks, audit redaction and backups.
  - `deployment/` renders the Linux, macOS and Windows enrollment scripts and the
    installer file name.
  - `http/` decides what each page shows and what a request is answered,
    from plain values.
  - `auth.rs`, `digest.rs`, `ids.rs` and `time_format.rs` hold the calls into
    argon2, sha2, hex, rand, uuid and time, each behind a small trusted function
    whose contract says what the crate does.
- `tests/` runs the library on concrete values.
- `app/` is the web server: axum routes, the SQLite store, HTML pages, the
  network probes of the status page and the serde forms of the backup file. It
  reads and writes; the library decides.
