# localsend

The logic of the LocalSend protocol (discovery over multicast and HTTPS,
uploads in sessions with a token per file), verified with Verus.

- `src/` is the verified library:
  - `textmap` — a string-keyed map that keeps its entries in key order;
  - `text`, `net` — the order of strings, decimal numbers, paths, and IPv4
    socket addresses with their text;
  - `ids` — Julids, UUIDs, SHA-256 digests, media types and timestamps, as the
    outside crates compute them;
  - `models` — devices and file metadata;
  - `discovery` — the peer table and the answers to announcements and
    registrations;
  - `transfer` — upload sessions on the receiving and the sending side;
  - `config` — the configuration of a device.
- `app/` is the service around it: UDP and HTTPS sockets, the axum server,
  the reqwest client, the file system, the JSON wire forms and the event
  channel.
- `tests/` runs the library on concrete values.
