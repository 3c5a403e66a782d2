# CodexPotter

CodexPotter runs a coding agent on a project, round after round, until the project is done or the
budget of rounds is used up. The progress of a project is kept in a Markdown file with YAML front
matter below `.codexpotter/projects`.

The library under `src/` holds the logic, verified with [Verus](https://github.com/verus-lang/verus):

| Module | What it holds |
| --- | --- |
| `text` | characters, lines, trimming, decimal numbers |
| `front_matter`, `front_matter_laws` | reading and setting keys of a progress file |
| `project`, `project_setup`, `project_laws` | prompts, git metadata, the directories and files of a new project |
| `paths`, `notes`, `history_cell` | how projects, notes and summaries are shown |
| `protocol`, `potter_protocol`, `token_usage` | agent events, JSON-RPC messages, token counts |
| `cli`, `cli_help`, `launch`, `rounds`, `startup` | the command line, and what is settled at startup |
| `main_session` | the course of the program |
| `client` | the client of the app-server |
| `exec`, `exec_events`, `exec_emitter` | what non-interactive runs have in common |
| `exec_json`, `exec_json_laws` | a run that reports a stream of JSON events |
| `exec_human` | a run that reports to a reader |
| `codex_compat`, `compat_home` | the links in the home directory of the backend |
| `stream_recovery` | retries after a broken stream |
| `runtime_log` | the diagnostics log of a project |

Whatever touches the outside world is asked for: the sessions in `main_session`, `client`,
`exec_json`, `exec_human`, `codex_compat`, `compat_home` and `project_setup` hand out an action, and go on with the
result of it. Public proof functions whose names begin with `law_` state what holds of the library
as a whole.

`app/` is the program around the library. It performs the actions, and holds the copies of the
library's types that `serde` reads and writes. It has a plain user interface, line by line, and does
not hold the app-server itself: `codex-potter app-server` ends with an error.

`tests/` runs the library on concrete values.
