# backend

The decision logic of the remote-access backend for WARP chargers and
Tinkerforge ESP32 bricks, written in Verus: every function in `src/` carries a
contract that Verus proves.

## Layout

- `src/` — the verified library.
  - `charger_uid` — z-base-32 and Flickr-base58 charger UIDs and their round trips.
  - `validation` — checks of WireGuard keys and charger UIDs in add-charger requests.
  - `chargers` — registering a charger, giving access, removing access, handing out keys.
  - `devices` — the device list a user sees and the heartbeat rule of its socket.
  - `grouping` — device groupings; a user never has two default groupings.
  - `management` — what a charger's periodic report decides.
  - `accounts`, `password`, `token`, `jwt`, `session` — registration,
    verification, recovery, login keys, signing and reading tokens, token
    claims and session cookies.
  - `salt_cache` — the login salt of an address, with stand-in salts kept
    in a bounded LRU cache for addresses without an account.
  - `cleanup` — what the periodic cleanup removes.
  - `mail` — languages, links and subjects of the mails.
  - `rate_limit` — the keyed rate limiters and their refusals.
  - `branding`, `error`, `ids`, `models`, `text`, `encoding`, `random`, `wireguard` — small shared parts.
- `tests/` — tests of the library.
- `app/` — HTTP glue: request extraction, responses, JSON forms, the
  access-token guard, the hashing worker pool and the device socket loop.

Calls into outside crates (base64, bs58, uuid, argon2, boringtun, chrono,
ipnetwork, jsonwebtoken, lru, the cookie writer, governor, validator) go through small trusted wrappers whose
contracts are documented where they stand.
