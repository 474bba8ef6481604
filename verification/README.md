# p92000l

A library for the 9P2000.L protocol, written in Verus: the message codec,
the client's fid and tag bookkeeping, the server's version exchange and the
session tracking of a reconnecting proxy carry contracts that Verus proves.

## Layout

- `src/wire.rs`: little-endian integers, strings and byte buffers on the wire.
- `src/flags.rs`, `src/fcall.rs`: the protocol's flag sets and messages, each
  with a mathematical view.
- `src/codec.rs`, `src/lists.rs`: spec encoders and parsers of every message
  body, the lemmas that parsing an encoding gives it back, and the executable
  encoders and decoders proved against them.
- `src/frame.rs`: whole frames (size, type, tag, body), the zero-copy write
  path and the receive-size check.
- `src/client.rs`, `src/requests.rs`: fid and tag allocation, version
  negotiation and how replies are read.
- `src/server.rs`: buffer size and version reply of a server.
- `src/lserver.rs`: the fid table of the single-threaded server: which
  requests reach the file system (`EBADF` for unknown fids, `EOPNOTSUPP` for
  messages it does not serve) and how attach, auth, walk, clunk and remove
  change the table.
- `src/shadow.rs`, `src/proxy.rs`: what a reconnecting proxy remembers of a
  session and what it sends when the server comes back.
- `src/lerror.rs`: error numbers and I/O error kinds, and plain file
  attributes as protocol values.
- `app/`: sockets, threads and the read/write loops, in plain Rust: the
  multi-threaded client (`client.rs`), the threaded server (`server.rs`), the
  single-threaded server (`lserver.rs`) and the reconnecting proxy
  (`recover.rs`). There is one client; it serves both TCP and UNIX sockets.
