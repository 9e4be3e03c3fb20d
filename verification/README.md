# codex_session

Decisions behind a coding agent's session, written in Verus: every function states in its contract
what it does, and is proved to do it. Two facts about the standard library are trusted instead of
proved: how a string is printed (`debug_str`), and that a copy of a `PathBuf` is that path.

| module | what it decides |
| --- | --- |
| `authapi`, `personal_access_token` | which auth service is asked, whose an access token is, and what is printed of it |
| `telemetry`, `telemetry_laws` | what the exec server counts and reports |
| `workspace_path`, `workspace`, `workspace_mutation_spec`, `workspace_exchange`, `workspace_mutation`, `workspace_laws` | how the model may change its working directory and its workspace roots |
| `desktop`, `history_ui` | how a session is handed over to the desktop app, and what is cleared with the screen |
| `compression` | how a request body is compressed |
| `text` | string helpers that the others share |

What needs a file system, a network, a process or a terminal is not done here. Such work goes in
stages: a stage tells what it asks for, and a step takes what came back and gives the next stage.
`app/` is the host side, in ordinary Rust: it performs what is asked for and hands back what came of
it.

Proof functions whose names begin with `law_` state what holds across functions.
