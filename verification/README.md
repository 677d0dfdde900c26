# gopher-mcp-rust

SDK for the gopher-orch AI-agent engine, a native library loaded at run time.

- `src/` is the verified library (Verus): configurations and their builder,
  agent results, errors and their display texts, where the native libraries
  are looked for, the one-time initialisation state, how an agent is created
  from a configuration, what a query's answer becomes, agent disposal, and
  what the JWT validation library's answers mean.
- `app/` loads the native libraries with `libloading`, calls them, and keeps
  the process-wide state; each decision it needs comes from `src/`.
- `tests/` runs the library on concrete values.
