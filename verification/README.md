# nexus

The decisions behind Nexus, an indexer of Pubky homeservers, written and proved in Verus.

- `src/` is the library. Every function states what it returns or changes; Verus proves it.
  - `text`, `sort`, `types`, `telemetry`: vocabulary and plain algorithms.
  - `uri`: identifiers and URIs of the Pubky network.
  - `config`: settings, their defaults and what a setting may be.
  - `graph`: Cypher queries, their text with the parameters spliced in, and their observation.
  - `post`: streams of posts: where their keys are read from, merged and paged.
  - `user`: ingestion of unknown users, unless their homeserver is blacklisted.
  - `watcher`: events, errors and retries, and the loops over homeservers and users.
  - `webapi`, `daemon`: the HTTP service and the start of all services.
- `app/` carries the library's plans out: databases, homeservers, HTTP and the clock.
- `tests/` runs the library on concrete values, with the real outside crates.

Functions whose names begin with `law_` state what holds of the library as a whole: they relate
several functions, or one function and every state.

What another crate or the standard library computes is trusted, and nothing else: a function marked
`external_body` makes one such call, with what converts its arguments and its result, and its doc
comment says what is claimed of it. Where that takes pages to state, the result has a name
(`uninterp spec fn`), and the callers' contracts speak of the name.

A double is held as its shortest decimal text, and a score of a sorted set as an integer that
orders as the score does.
