# fabricks

The core of Fabricks, a declarative WASM orchestration platform, written in
Verus: the rules the daemon and the command-line tool follow, each stated in a
contract and proved.

## Layout

- `src/` — the verified library.
  - `policy/` — mortar-project policies: the deny/require/warn rule model,
    the evaluation engine and the manager that loads and unloads policies.
  - `network/` — capabilities, networks and their members, the service
    registry, and connection, listen and ingress validation.
  - `proxy/` — the port router, load balancing, the proxy server's
    listeners and request routing, and egress decisions.
  - `health/` — health check results, per-service health and the monitor's
    registrations and schedule.
  - `events/` — events and the event bus (subscribers and history).
  - `api/` — what each daemon endpoint answers, and the order of the steps
    of running a module.
  - `cli/` — the command-line tool's arguments, its client of the daemon,
    credentials steps, builders, the build of a module from its `[build]`
    section, and the text it prints.
  - `config.rs`, `paths.rs`, `digest.rs`, `format.rs`, `toolchain.rs`,
    `keyed.rs`, `text.rs`, `ids.rs`, `clock.rs`, `error.rs` — shared pieces.
- `tests/` — tests of the library on concrete values.
- `app/` — the `fabricks` command-line program: argument parsing, HTTP over
  the daemon's Unix socket, the OS keyring, and printing.

Calls into other crates (sha2, hex, uuid, chrono, url, dirs, tokio) go through
small trusted functions whose contracts say what those crates promise.

Tables keyed by text (networks by ID, policies by mortar project, the
service registry, health by service) are `KeyedList`s, the library's own
list of key/value pairs with distinct keys, rather than std's `HashMap`:
with `String` keys Verus proves nothing of what a `HashMap` lookup returns,
while every operation of `KeyedList` has an exact contract over a `Map`.
The event history is a `VecDeque`, as std specifies it in vstd.
