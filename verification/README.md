# pksmash

The core of a small "smash or pass" voting service for Pokémon, verified
with Verus.

- `src/` is the verified library: response envelopes and their HTTP status
  codes, the API's errors, session tokens (expiry, renewal, the claims JSON,
  signing and checking through `jsonwebtoken`, the `Authorization` header),
  accounts and their bcrypt password check, votes and tally updates, the
  index that keeps user names unique, the listening port, and the answers
  of the routes given what the store replied.
- `app/` is the HTTP server around it: Rocket routes and responders, the
  MongoDB reads and writes, serde forms of the library's types, and start-up.
- `tests/` runs the library.
