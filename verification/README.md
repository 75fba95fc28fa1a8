# cliarr

A terminal client for a home media stack (Radarr, Sonarr, Plex,
qBittorrent, NZBGet): scripted subcommands and an interactive TUI.

## Layout

- `src/` — the library, verified with Verus: URL joining and error
  classification, configuration and redaction, the rules of every
  subcommand (picking profiles and folders, ordering lists, expanding
  torrent hash prefixes, building the calendar), the update check
  (version comparison, checksum verification), the poster cache, and
  every decision of the TUI (key dispatch, tab order, refresh plans,
  ticks, dialogs, selection restoring, list bodies and status lines).
- `app/` — the program around it: argument parsing (clap), the HTTP
  requests (reqwest) and JSON decoding (serde), terminal input and
  rendering (crossterm, ratatui, ratatui-image), file I/O, and the
  values that only exist as floats (progress, sizes).
- `tests/` — tests of the library on concrete values.

Calls into other crates from the library go through small trusted
functions whose contracts say what the crate documents (url, chrono,
semver, sha2, reqwest, tokio, directories).
