# tapedeck

Scripted media recording: `.roll` scripts drive either vhs (terminal
sessions) or a native desktop path (compositor lookup, wf-recorder and
injected keyboard/mouse events).

## Layout

- `src/` — the library, written and proved with Verus:
  - `script`, `parser` — the `.roll` language and its parser
  - `dispatcher`, `native`, `timeline` — engine choice, vhs tape
    generation, the native recording plan and step decisions
  - `input`, `keys` — shortcuts, wtype arguments, uinput event sequences
  - `compositor`, `umbriel` — window lookup and clipping, error layers
  - `probe`, `ffmpeg`, `optimize`, `filmstrip` — encoders and ffmpeg
    command lines
  - `db` — asset hashing, Markdown references, orphans
  - `reroll` — batch planning and bookkeeping
  - `mcp` — the MCP server's protocol and tool-call decisions
  - `doctor`, `config`, `cli`, `paths`, `tui` — reports, settings,
    arguments, XDG directories, the script browser's state
  - `text`, `fspath`, `scan` — text and path helpers
- `tests/` — tests of the library
- `app/` — the `tapedeck` command: argument parsing, files, processes,
  SQLite, devices and the MCP stdio loop around the library
