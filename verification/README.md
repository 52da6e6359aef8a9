# fff_mcp

The decisions of a file search server, written in Verus: what a request asks
for, which searches are made for it one after another, how their results are
answered, and what a walk through a directory tree collects.

- `src/text.rs`, `src/number.rs`, `src/paths.rs`: words and joined texts,
  double precision numbers by their bits, relative paths.
- `src/fields.rs`, `src/params.rs`: the fields of a request and the parameters
  of the three tools.
- `src/query.rs`, `src/options.rs`: the queries and the setup of the searches.
- `src/grep.rs`, `src/multi_grep.rs`, `src/find.rs`: the searches. Each is a
  session that says what it waits for; `advance` takes what came back and moves
  it on, until it holds an answer or a failure.
- `src/server.rs`: what the server remembers between requests, and how a request
  begins a search.
- `src/walk.rs`: the visit of an entry, and what the walk collects.
- `app/`: the protocol, the file system, the clock and the locks around it.
- `tests/`: the library, called from outside.
