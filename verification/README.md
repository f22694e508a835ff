# hyperborealib

A library for the Hyperborea protocol: the values that clients and servers
exchange, their JSON form, the text codecs of messages, and the decisions that
clients and servers take on each other's answers. The library under `src/` is
verified with Verus; `app/` holds what talks to the world.

## Layout

- `src/crypto/` — public keys as 33-byte encodings, base64 text, and the names
  of the encoding, encryption and compression algorithms.
- `src/rest_api/json.rs` — JSON documents as plain values, with field lookup
  and object builders.
- `src/rest_api/mod.rs` — the `AsJson` trait: every protocol value states what
  `to_json` writes and what `from_json` reads, and reading a document that was
  written gives the value back.
- `src/rest_api/types/` — clients, servers, certificates, tokens, messages.
- `src/rest_api/request.rs`, `response.rs` — the signed headers of requests and
  responses, and their validation rules (proof seeds of at least `2^63`).
- `src/rest_api/requests/` — the bodies and headers of each request.
- `src/rest_api/send/` — messages of the first protocol version: base64 text,
  AES-256-GCM and ChaCha20-Poly1305 encryption, DEFLATE compression; decoding
  what was encoded gives the message back.
- `src/rest_api/middleware/` — what a client makes of answers (including the
  breadth-first lookup through servers, which asks each server at most once)
  and what a server answers (including the order in which it looks a client up).
- `src/server/` — the inbox of messages and how a poll takes them out.
- `app/` — serde_json conversion, the inbox kept in a moka cache, and the
  asynchronous client and server exchanges over an HTTP transport.

Signing and signature checks are done by the caller: the library says which
key, bytes and signature each check covers, and functions that need the
outcome take it as an argument.
