# card_wallet

A backend for prepaid cards that parents give their children and vendors take
payments from. A parent creates a card (with a six digit PIN and a QR code whose
picture is stored in S3), puts money on it, and a vendor scans the code, asks
for the PIN and takes an amount from the card's wallet into their own.

The rules of the service are a library verified with Verus; the HTTP server
around it is ordinary Rust.

## Layout

- `src/` — the verified library:
  - `money.rs` — decimal balances and the debit and credit arithmetic
    (computed by `bigdecimal`), with the laws that a debit never leaves a
    negative balance and that a payment keeps the sum of the two balances;
  - `models.rs`, `dtos.rs` — the stored records, the request bodies with their
    field checks, and the answers;
  - `validation.rs` — field checks and the report of the failing ones;
  - `pin_hasher.rs` — Argon2 hashing of PINs and passwords, and checking one
    against a stored hash;
  - `qr.rs` — the signed QR payload, its base64 text and its PNG picture, and
    reading a scanned code back;
  - `db.rs` — the SQL of the wallet queries and the rules applied around them;
  - `flows.rs` — each request handler as a step function from its state and
    the answer to its last request to its next request or its answer;
  - `config.rs` — the settings read from the environment's values;
  - `errors.rs` — error messages and HTTP error answers.
- `tests/` — tests of the library.
- `app/` — the server: routes, handlers that run the step functions against
  Postgres (`sqlx`) and S3, JSON bodies, tokens, and `main`.
