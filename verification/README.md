# monocle_sessions

The session coordinator of the monocle daemon: the registry of session-host
processes, the rules of their lifecycle (spawn, kill, detach, attach, rename,
collection), the broadcasts each transition sends to clients, and the validation
and framing around them. The library under `src/` is verified with Verus; `app/`
performs the process, socket, signal and file work the library decides on.

Layout of `src/`:

- `model`, `codes`: session states, errors, and the wire code of each error.
- `names`: session IDs, display names, sidecar and socket file names.
- `frame`: the length-prefixed framing of control messages.
- `sidecar`: the sidecar record and its in-place updates.
- `sidecar_json`: reading the child PID from a sidecar's text and rewriting the
  patched members of that text, every other member kept.
- `protocol`: what a session-host message means at each stage.
- `signals`: timing constants and the decisions on signal outcomes.
- `host`: spawner, peer check, ID generators.
- `table`: the registry and every transition on it.
- `flows`: the kill and spawn protocols as state machines.
- `laws`: properties that relate several operations.
