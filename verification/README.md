# schat

The core of a one-to-one messenger over onion services, written in Verus: what
it decides is stated in contracts and proved.

- `src/` is the library. It holds the wire layouts of the pairing payload, the
  safety number, the pairing ceremony, the admission and dispatch of inbound
  envelopes, the rules for what may leave, delivery, closing and burning,
  per-relationship rules (`policy`), attachments, media hygiene, rate limits,
  presence, the client's surface (`ffi`) and the command line (`cli`).
- `tests/` runs the library with the real image, QR, Base58, Base32, GIF and
  SHA-256 crates behind it.
- `app/` is `schat-cli`, ordinary Rust. It reads arguments and files, prints,
  and drives a node: the transport, the encrypted store and the ratchet
  sessions, which it takes through the trait `Node`. The one machine it comes
  with links none of them: what needs a node is refused there.

## How the library is built

The library does no I/O and keeps no clock. A function takes what is on record
as plain values and says what follows: a plan, a list of effects, events for the
client, or the reason for a refusal. The caller performs it.

What the library has from other crates stands behind small functions marked
`external_body`. The doc comment of each says which function it calls and what
is believed of it. Where a result cannot be stated in a few lines, it has a
name (`sha256_of`, `base58_of`, `qr_code_of`, `decode_gives`, ...), and contracts
speak of the name.

Laws that relate several functions are public proof functions at the end of
their module.
