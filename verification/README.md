# ffplayout

The logic of a playout server's configuration and control, written in Verus
with its behaviour stated as contracts and proved.

- `src/config.rs`: output and process modes, the configuration sections, and
  the values derived from them (decoder arguments, ingest and output
  commands, the text overlay and its remote-control server).
- `src/filter.rs`: the ffmpeg filter graph of a clip and the
  `-filter_complex` / `-map` arguments it stands for.
- `src/control.rs`: JSON-RPC requests to the player and the systemd
  commands that manage its service.
- `src/headers.rs`: the HTTP headers of a remote-control request.
- `src/db.rs`: the instance secret, password hashing and update statements.
- `src/text.rs`, `src/shell.rs`: string operations and shell-style splitting.
- `app/`: the I/O around the library (configuration file, HTTP, systemd,
  SQLite).
- `tests/`: tests of the library.
