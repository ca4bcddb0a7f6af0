# Vidown

A terminal video downloader built around `yt-dlp`, with a keyboard- and
mouse-driven interface, a persistent download history and a first-run setup
screen that fetches missing tools (`yt-dlp`, `ffmpeg`/`ffprobe`, `node`).

## Layout

- `src/` is the verified library (`video_downloader`). It holds the whole
  application state and its transitions (`app`), the dispatch of key, paste and
  mouse events (`events`), the `config.toml` format and the directories chosen
  from the environment (`config`), the parsing of `yt-dlp`, `curl` and `wget`
  output (`downloader`, `deps`), clipboard sanitising (`clipboard`), the history
  limit (`history`), the layout arithmetic of the screen (`ui`), and the
  character-level string helpers they share (`text`). Every function carries a
  `requires`/`ensures` contract proved by Verus; laws that relate several
  functions are public proof functions (`lemma_*`).
- `app/` is the program around the library: the `tokio` event loop, drawing with
  `ratatui`, the terminal, files, processes, the clipboard and the network. Event
  handlers in the library return an `AppAction` naming the outside work that is
  left; `app/` performs it and reports the outcome back.
- `tests/` exercises the library through its public API.

Progress percentages are kept in hundredths of a percent (`0..=10000`).
