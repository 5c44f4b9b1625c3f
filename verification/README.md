# zoxide_ffi

The verified core of a C interface that lets shells (zsh, PowerShell) run
zoxide's `add`, `query` and `remove` commands in-process.

- `src/` — the library, verified with Verus:
  - `cstr.rs`: C strings to Rust strings and back (UTF-8 checks, NUL
    truncation, keyword arrays);
  - `error.rs`: the errors and the return protocol (NULL for success, a
    message for every failure, even an empty one);
  - `session.rs`: the process-global session slot (`zo_init`,
    `zo_shutdown`, running an operation on the session);
  - `api.rs`: the database operations (`zo_add`, `zo_remove`, `zo_query`,
    `zo_stats`) with their argument checks.
- `app/` — the exported `extern "C"` functions: pointer handling, the global
  lock, panic capture, and the calls into zoxide's session.
- `tests/` — tests of the library against an in-memory session.
