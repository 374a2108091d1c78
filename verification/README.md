# gh_issues

A small web front end for GitHub issues: pages that list a user's repositories,
a repository's issues, one issue with its comments, and forms to open an issue,
comment on it, or close it. The server answers the pages' requests by calling the
GitHub REST API with a token taken from the `TOKEN` environment variable.

- `src/` is the verified library (Verus): routing (`routing`), query strings
  (`query`, on top of `text`), the requests sent to GitHub (`github`, `service`),
  the JSON framed for them (`json`, string literals written by serde_json), how that
  JSON reads back (`readback`) and the
  markdown rendering of new issues (`render`, through the markdown crate).
- `app/main.rs` is the WASI HTTP server (wstd): it reads the request, asks the
  library what to send, sends it, and writes the answer; it also holds the pages.
- `tests/` exercises the library on concrete values.
