# agent_core

The verified core of a tool-calling agent runtime, written in Verus.

- `src/` is the library. Every function there carries a contract that
  Verus proves; the `law_*` proof functions state properties that span
  several calls (trimming keeps system messages and is idempotent; a
  registered tool that reports its name is the one found under that name;
  a turn counts its tool calls, never exceeds its iteration budget, ends
  with the error of a failed prompt or model call and goes on past memory
  failures; ...).
  - The registries ask each item for its name (and aliases, description,
    id, version) whenever a lookup or listing needs it. Traits that users
    implement (`Tool`, `ProviderFactory`, `MemoryFactory`, `Plugin`) carry
    spec functions and an `obeys_*` predicate: what the registries promise
    of lookups and listings, and of what an item's methods return, is
    promised for items that obey their spec.
  - `messages`, `history`: conversation messages and history trimming.
  - `brain`, `turn`: brain strategies, and the agentic turn as a state
    machine from events to actions.
  - `tools`, `providers`, `memory`, `plugins`: registries.
  - `session`, `jsonl`: session transcripts and the text side of JSONL
    session files.
- `app/` is ordinary Rust around it: async sessions behind locks, the JSONL
  files themselves, serde forms of messages, and the loop that performs a
  turn's actions against real services.
- `tests/` exercises the library on concrete values.
