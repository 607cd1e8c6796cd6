# mana_dev

The logic of the Mana development tools, written in Verus and proved
against its contracts, with a thin command-line program around it.

- `src/` — the verified library:
  - `config.rs`: build settings and repository metadata from the built-in
    defaults, `mana.json`, the `"mana"` key of `package.json` and command-line
    flags, with the priority laws.
  - `json.rs`: the JSON document model, member lookup, and the bridge to
    `serde_json` for reading and writing documents.
  - `paths.rs`: the watcher's intermediate directory and the output directory.
  - `watcher.rs`: the watcher's command line, build reports, the debouncer and
    the collection of its error output.
  - `runtime.rs`: the V8 runtime's settings (each set once), thread counts,
    published file names and the repository index (`sources.json`).
  - `server.rs`, `report.rs`: the client log kept by the server, status
    classes, and the wording and units of console messages.
  - `bench.rs`, `project.rs`: benchmark statistics, and finding entry points
    and scripts.
  - `text.rs`: character-level text operations (search, replace, trim,
    number formatting, ordering and sorting).
- `app/` — the `mana-dev` program: command-line parsing, files, processes,
  the HTTP server, V8 and threads.
- `tests/` — tests of the library on concrete values.
