# mansion

A small request/response messaging framework over TCP, with an optional
encrypted transport (RSA-protected X25519 key exchange, then
ChaCha20-Poly1305).

- `src/` is the verified library (Verus): the frame layout (`frame`), the
  table of pending requests (`req_map`), the adapters' byte layouts and key
  handling (`adapter`, `encrypted`, with the primitives in `crypto` and RSA
  keys as plain values in `rsa_keys`), the
  server events (`event`) and the library's errors (`error`).
- `app/` is the ordinary Rust around it: TCP connections, tokio tasks and
  channels, `bincode` serialization of user messages, and the public client
  and server types.
- `tests/` exercises the library on concrete values.
