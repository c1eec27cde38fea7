# dap

A verified library for a Debug Adapter Protocol gateway and its command-line
debugger, written in Verus. The functions in `src/` carry contracts that
Verus proves; the few calls into `std`, `base64` and `serde_json` that cannot
be proved sit behind small trusted wrappers whose contracts are stated in
their doc comments.

## Layout

- `src/text.rs`, `src/num.rs` — the character-level model of `str` operations
  (trimming, searching, splitting, case folding) and integer parsing and
  formatting that the rest is specified with.
- `src/repl/` — the interactive debugger: command-line parsing
  (`commands`, `breakpoint`, `actions`), help texts, the NDJSON request
  planner and its answers (`json_plan`, `json_response`), the state it keeps
  (`context`, `lists`, `table` for source breakpoints, `exceptions` for
  exception breakpoints, `emulated` for emulated instruction breakpoints), the
  decision taken at each stop (`stop`), log point templates (`logpoints`), and
  the choices and replies behind plain-text commands (`plan`, `replies`,
  `sources`).
- `src/memory.rs` — read-count limits, hex payload parsing, address parsing,
  the base64 payload of `writeMemory` and the hex dump of `readMemory` answers.
- `src/bounds.rs` — the bounds put on `variables` answers handed to agents.
- `src/navigation.rs`, `src/data_watch.rs`, `src/instruction.rs` — stepping
  commands, emulated data breakpoints and instruction breakpoint keys.
- `src/render.rs`, `src/display.rs` — plain-text rendering of debugger answers
  and presentation settings.
- `src/routing.rs`, `src/session_init.rs`, `src/gateway/`, `src/proxy.rs` —
  adapter routing heuristics, session initialisation decisions, gateway spawn
  specs and proxy options.
- `src/plugin/` — plugin and target manifests: validation, manifest lookup and
  the merge of builtin and user manifests.
- `src/instance/` — instance identifiers, tags, session records and the
  cleanup guard.
- `src/child_session.rs`, `src/grammar.rs`, `src/cli.rs`, `src/paths.rs` —
  child-session profiles, grammar lookup, the CLI's option types, and path
  helpers.
- `src/attach.rs`, `src/reverse_request.rs` — attach arguments merged with
  target defaults, and the reverse requests the proxy answers itself.
- `src/json_text.rs`, `src/text_map.rs`, `src/sorted.rs` — JSON string text,
  maps from text to text, and lists kept sorted by a text key.
- `app/` — the `dap-cli` binary: argument parsing with clap, manifest files on
  disk, printing.
- `tests/` — tests run against the compiled library.

## Maps keyed by text

State that is naturally a `HashMap` or `BTreeMap` keyed by a `String`
(instance tags, breakpoints by file and line, exception breakpoints and
manifests by id) is kept in small vectors with an invariant instead:
`text_map::TextMap` (unique keys, insertion order), `repl::table` (unique
file and line, ordered by line) and `sorted` (strictly increasing keys).
vstd specifies `HashMap` and `BTreeMap` well only for keys whose equality
and hashing or ordering it knows, such as integers; with `String` keys the
calls verify but say too little to prove these modules' contracts (not
even that one insertion gives a map of one entry), and `BTreeMap`'s order
over strings is not specified. The vectors make the map, the key order and
the uniqueness of keys explicit in each contract.
