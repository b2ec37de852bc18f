# codemie_gitops

The decision logic of the `codemie-gitops` command, which validates and
applies one CodeMie declaration (an Assistant, Workflow, Skill or Datasource)
per invocation, written in Verus and proved against its contracts.

- `src/` is the verified library: declaration parsing (the YAML reader of
  `serde_yaml` and the JSON conversion of `serde_json` are called through
  trusted wrappers whose results the checks then hold to), identity rules,
  the selection of discovered files, request projection, pagination and
  enumeration invariants, Workflow identity markers, sealed modifying requests, retry and status
  classification, authentication flow selection, and the renderer of
  outcomes, diagnostics and warnings with its exit-code taxonomy.
- `app/` is the command around it: argument parsing, the directory walk and
  other file I/O, HTTP through `reqwest` and `tokio`, the `yaml-rust2` event
  scan (an implementation of that crate's receiver trait), and the process
  exit status. Every decision it acts on comes from the library.
- `tests/` exercises the library on concrete values.
