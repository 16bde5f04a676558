# dtc_client

The verified core of a small DCS World companion client and of two gRPC
services of the DCS gRPC server.

- `src/dcs.rs` — the aircraft the client knows, recognising them by the name
  DCS reports, and their display names.
- `src/gui.rs` — what the window shows (connection, aircraft) and how the
  worker's messages change it.
- `src/worker.rs` — when the background worker stops, and what it tells the window after each poll.
- `src/client.rs` — parsing the self data JSON and reading the aircraft name out of it.
- `src/mission.rs` — writing a mission date and time as RFC 3339 in UTC.
- `src/export.rs` — the rule that refuses `eval` when it is disabled.
- `src/service.rs` — those two answers as the gRPC statuses the services return.

`app/` holds the I/O around it: the egui window, the worker thread and the gRPC
client, plus two thin entry points for the services (the float-to-seconds cast).
The service trait impls themselves belong to the DCS gRPC server crate, whose
own types are not part of this project.
