# yt_dlp_gui

The logic of a desktop front end for the `yt-dlp` downloader, verified with Verus.

- `src/` is the library. Every function in it is verified against its contract:
  configuration and settings validation, the command lines handed to `yt-dlp`,
  the parsing of its progress output and of the metadata it prints, the aggregation of stream progress, the
  state machines of download tasks and streams, the ordering and formatting of
  the task and search tables, dialogs, themes and locales. Calls into `ytd-rs`,
  `rusqlite`, `serde_json`, `tokio` and `std::path` stand behind small trusted wrappers whose
  contracts say what those crates do.
- `app/` is the program around it: the command line, the SQLite queries, the
  child processes, worker threads, and the floating-point parts (bitrates,
  durations, percentages and sizes in binary units).
- `tests/` runs the library on concrete values.
