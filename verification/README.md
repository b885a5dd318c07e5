# cloudmemo

The verified core of CloudMemo, a note-taking system made of a sync server
(HTTP, MySQL, Redis) and a desktop client that keeps notes locally and
synchronises them.

- `src/` is the library, verified with Verus:
  - `server/handlers/sync.rs`: the decisions of a sync — version conflicts
    and conflict strategies, the parents-first order in which pushed folders
    are written, snapshot pruning, the split of changed records into sent and
    deleted ones, and the counts of the answer;
  - `server/services/sync_lock_service.rs`: the table of sync locks, with the
    proof that each request keeps at most one lock of an account holding at
    a time. The proof is about the table as one request after another
    changes it; the server reads, decides and writes the table without a
    transaction, so two requests at the same moment are not covered;
  - the rest of the server's rules (devices, tokens, passwords, profiles,
    avatars, history, configuration) and the client's models, folder tree
    and keyboard shortcuts.
- `tests/` runs the library on concrete values.
- `app/` is the server binary: configuration, routes, SQL and Redis around
  the library's decisions.
