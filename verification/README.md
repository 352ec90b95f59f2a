# breez_nwc

Nostr Wallet Connect for a lightning wallet, verified with Verus.

- `src/` is the library. It reads connection strings and requests, decides what is served, writes
  answers and notifications, keeps the rules of the wallet cache, and steps the services through
  their phases. The contracts say what each function does; `src/laws.rs` states what holds across
  functions.
- `tests/` runs the library together with the crates it calls.
- `app/` is ordinary Rust around the library: relays, web sockets, the browser's database, tasks.

| module | what it holds |
| --- | --- |
| `text`, `json` | small helpers on text, JSON members |
| `keys`, `uri`, `event`, `cipher` | key pairs, connection strings, events, encryption |
| `nip47`, `response`, `model` | requests, answers, notifications, payments |
| `handler` | what the wallet is asked to do and what a client is told of the outcome |
| `directory`, `exchange` | connection strings by name; reading requests and writing events |
| `service`, `plugin` | the two wallet services |
| `relay` | the connection to a single relay |
| `update_bytes`, `wallet_cache` | the layout of encoded wallet updates; the cache of updates |
| `random` | random texts |
| `laws` | what holds of the library as a whole |

What the crates `nostr`, `serde_json`, `url`, `lwk_wollet`, `aes-gcm-siv` and `bip39` compute is
called through small functions marked `external_body`; the comment above each says what is taken on
trust.
