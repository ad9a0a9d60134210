# psw

A password manager whose users log in with SRP-6a (RFC 5054 4096-bit group,
BLAKE2b-512): the server stores only a password verifier and a salt, and each
login is a two-round exchange in which client and server prove to each other
that they derived the same key.

- `src/` is the verified library (Verus):
  - `bytes`, `bigint`: big-endian byte strings as numbers;
  - `srp6a`: the `srp` crate's computations and the proof that an honest
    login derives the same key on both sides;
  - `handshake`: what each side holds after the handshake, and the checks of
    the other side's proof;
  - `client`, `server`: registration, the command-line client's and the
    server's login exchanges as state machines, the desktop client's session;
  - `protocol`: laws of the whole exchange (a registered user logs in);
  - `text`, `error`, `models`, `messages`, `utils`: input checking, error
    answers, database rows, protocol messages, and the Argon2-based value of
    the server's utilities.
- `app/` is the program around it: the command line, the gRPC transport, the
  database.
- `tests/` runs the library against the `srp` crate itself.
