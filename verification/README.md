# opencode_sandbox

Verified core of a platform that runs OpenCode sessions in disposable
Kubernetes sandboxes.

- `src/` is the library, written in Verus and verified: workspace lifecycle
  rules, request authentication and authorization, configuration and upload
  validation, Kubernetes naming and readiness decisions, the sandbox Pod, the
  preview and sandbox routers' header and host parsing and routing, the supervisor's checkpoint
  encoding, Git transaction and checks, and its process-monitoring decisions.
  Laws that span several functions are public proof functions named `law_*`.
- `app/` is the executable around it (`gateway`, `router` and `supervisor`
  programs): HTTP servers, SQLite, the Kubernetes API, Git and process
  management. It hands the library plain values and acts on its answers;
  what it decides itself is I/O-bound: the store's SQL queries (such as the
  selection of idle workspaces), reading JSON bodies into plain values, and
  timeouts and retries.
- `tests/` runs the library on concrete values.
