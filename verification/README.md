# yaslp

A browser and launcher for Switch LAN Play relay servers, as a desktop
window (egui) or a headless web server (axum).

- `src/` is the verified library (Verus): the relay list and its formats,
  relay status and detection, ordering by ping, launch command lines
  (plain, sudo, elevated), configuration paths, and the state machines of
  the desktop browser and of the web server (relay list, pings, quick
  connect, download, connection session). `src/laws.rs` states the
  properties that span several operations.
- `tests/` runs the library on concrete values.
- `app/` is the program around it: HTTP, processes, files, the desktop
  window and the web server. It starts the desktop window by default, and
  the web server when started as `yaslp-web` or with `web` as its first
  argument (the next argument is the port, 8080 by default).

The JSON parse of a relay list is serde_json's, behind the one trusted
wrapper of the library (`src/json.rs`); what the document means is verified.

Both interfaces keep their settings in `config.json` beside the executable.
