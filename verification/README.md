# enterprise_code_memory

An MCP server that keeps a knowledge graph (FalkorDB) of the repositories of
one or more GitHub organisations: their languages, topics, teams, files and
the dependencies declared in their manifests. Tools answer questions such as
"which repositories depend on this crate?" over that graph.

## Layout

- `src/` is the library, written in Verus and verified:
  - `config` reads the configuration from environment values (`AppConfig::from_vars`),
    with the host/API-URL mapping and the per-org repository lists;
  - `github::parsers` extracts dependencies from `Cargo.toml`, `package.json`,
    `go.mod`, `requirements.txt` and `pyproject.toml`;
  - `github::base64`, `github::client` decode file contents and build the REST paths;
  - `github::ingest` builds what a sync writes (the graph requests, the files of a
    tree worth recording, the report of a sync);
  - `github::sync` and `github::org_sync` are the state machines that decide a
    repository's sync, an organisation's sync (full or incremental) and the
    search of a repository by name: which
    write or read comes next and what its outcome adds; `app/` performs the
    actions they ask for;
  - `graph` holds the data model, the Cypher queries and the rendering of query
    parameters;
  - `auth` holds the token store (with expiry, on the system clock), the
    bearer/JWT checks and the OAuth login steps;
  - `tools` and `server` build the tool queries and answers;
  - `text`, `numparse` and `doc` are the string, number and document views the
    contracts are stated over.
- `app/` is the program around the library: environment and `gh` CLI reads,
  the HTTP server (axum), the MCP tools (rmcp), the GitHub client (octocrab)
  and the FalkorDB connection.
- `tests/` runs the library on concrete values.
