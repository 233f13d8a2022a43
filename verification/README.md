# pmv_cli

A command line client library for PersonalMediaVault, verified with Verus.

- `src/` is the library. Every function in it is verified: its `requires`/`ensures`
  state what it computes over mathematical models (`Seq`, `Map`, integers), and the
  `law_*` proof functions state properties that span several calls.
  - `text`, `lists`, `sorting`, `url_encoding`, `table`: character sequences, decimal
    numbers, splitting, trimming, case, display width, CSV cells, percent-encoding, a
    stable sort, and terminal tables.
  - `vault_uri`: the grammar of vault URLs (login or session).
  - `models`: the vault's data: configuration, accounts, media assets, albums, tags,
    tasks, home page groups.
  - `api`: the request paths of the vault's HTTP API, with their queries.
  - `commands`: the decisions behind each command: argument reading, which assets to
    download, what an export writes and what an import of it does, search filters and
    result collection, album ordering, configuration changes, and the texts the
    commands print, and the step functions of the commands that wait or repeat
    requests (upload, batch operations, waiting for a task, the login's session
    check).
- `app/` is the program around the library: command line parsing, HTTP requests,
  terminal input and output, and the JSON forms of the library's types.
- `tests/` runs the library on concrete values.
