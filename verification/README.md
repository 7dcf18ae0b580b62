# rbtc

A small Bitcoin peer-to-peer toolkit: the wire format of blocks and network
messages, a walker that connects to nodes and collects the addresses they
announce, and a command line client. The library is written in Verus: the verifier checks every
function in `src/`, and the public ones carry contracts that say what they
return.

Layout:

- `src/encode/`: the byte cursor, the `Encodable`/`Decodable` traits, the
  variable-length integer, lists of items, and the laws that decoding reads
  back what encoding wrote.
- `src/block/`: blocks, transactions, inputs, outputs, scripts and witnesses.
- `src/network/`: the message header (magic, command, checksum) and every
  payload; `laws.rs` proves that each message reads back.
- `src/utils/`: SHA-256 (through `sha2`), text helpers, and the hex dump
  format with its read-back law.
- `src/nodewalker/`: the walker's state machine, its retry and receive
  decisions, address text, the messages it sends, and the small state machine
  library it is built on.
- `src/cli/`: the command line's line parser and its request state machine.
- `app/`: the program around the library: sockets, threads, the terminal,
  DNS seeds and the SQLite store.
- `tests/`: tests on concrete values.
