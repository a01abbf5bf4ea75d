# luwiki_mcp

The MCP endpoint of a small wiki, as a library verified with Verus: the
rules that decide what a client may do, what each tool and standard request
answers, and what is audited.

## Layout

- `src/` — the verified library.
  - `errors`, `access`, `auth`, `paths`, `text`, `seqs`, `sorting`: error
    codes, scopes and path prefixes, the `Authorization` header, page paths
    and the text helpers they rest on.
  - `store`: the conversation with the page store. An operation that needs
    the store is a function of the replies it has received so far; it asks
    for the next request or finishes, so every decision between two store
    calls is made, and proved, in the library.
  - `service`, `reads`, `writes`, `editing`, `markdown`, `search`,
    `prompts`, `resources`: the tools and standard requests.
  - `handler`, `entries`, `audit`, `convert`, `model`, `pages`: the tool
    entries, their audit records and the answer types.
  - `server`: announced capabilities, the standard `prompts/*` and
    `resources/*` requests and their protocol errors.
  - `sessions`: idle sweeping and least-recently-used eviction of sessions.
- `tests/` — tests of the library, run against the compiled crate.
- `app/` — what runs around the library: JSON argument and answer shapes,
  rmcp types, the loop that performs the store requests, sessions on the
  async runtime, local time stamps and the ranking of search hits by score.

Laws of the library (what every operation keeps, or what one call means for
another) are public proof functions named `law_*` next to the functions
they speak of.
