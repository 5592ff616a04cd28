# metatube-cli

Organises downloaded videos by actress with the help of a MetaTube server:
it recognises each video's movie number from its filename, looks the movie
up, and moves the file to `<output>/<actresses>/<number>/<number>-<UC|C>.<ext>`.
Failures are archived with a record and retried on a later run when their
cause was transient. It runs once, on a cron schedule, or watching the
download folder, with a terminal dashboard or plain logs.

## Layout

- `src/` — the library, verified with Verus: number recognition, naming and
  grouping rules, retry decisions, settings merging, request paths and
  response interpretation, scheduling arithmetic, and the dashboard's state
  machine and text. Calls into `regex`, `unicode-width`, `urlencoding`,
  `croner`, `chrono`, `anyhow` and std stand behind small trusted wrappers
  whose contracts state what those crates document.
- `app/` — the program around it: command line, configuration file, HTTP
  client, file moves, the watcher, the scheduler loop and the ratatui
  screen.
- `tests/` — tests of the library.
