# libsql-server

The decision logic of a multi-tenant SQL server's HTTP platform, written in Verus. The functions
under `src/` carry contracts and are proved to meet them, except the few that call another crate.

- `src/` is the library. `databases` and `admin_query` decide about the life of databases and
  about admin queries, `namespace_config` about namespaces, `static_files` about the files of the
  dashboard. `conn_cache`, `stmt_cache` and `query_registry` are the shared data structures.
  `token`, `auth`, `db_factory` and `replication` decide who may do what.
- `app/` is the server around it: HTTP handlers, the metadata store, files, clocks and threads.
- `tests/` runs the library with the crates that it calls.

Handlers that alternate decisions and outside work are split into steps. A step is either the
answer or a piece of work for the caller, who hands the outcome to the next function.

The functions that call other crates are marked `external_body`; the comment above each says what
is taken for granted of the call.
