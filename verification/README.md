# snapdown

The verified core of SnapDown, a desktop downloader for Bilibili, Douyin and
YouTube videos. The library decides everything the application does with
download requests and with the output of the download engine; the desktop
shell in `app/` opens windows and dialogs, reads and writes files, and runs
the engine's processes.

- `src/text.rs` — trimming, whitespace removal, search, ordering and decimal
  rendering of text, each tied to a specification over `Seq<char>`.
- `src/platform.rs` — which platform a request is for; how the engine's
  interpreter is chosen and invoked.
- `src/line.rs` — decoding one line of the engine's output.
- `src/models.rs` — requests, settings, task records and reported events.
- `src/store.rs` — the task store, modelled as a map from id to task.
- `src/running.rs` — the running engine processes, by task id.
- `src/engine.rs` — handling of engine messages, the error-stream tail, and
  the end of a process.
- `src/commands.rs` — the decisions behind each user command.
- `src/stamps.rs` — the clock and fresh task ids.
- `src/laws.rs` — properties of the library as a whole.
