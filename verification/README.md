# pavkhemerak_api

The backend of pavkhemerak.dev (blog, dashboard, portfolio content, GitHub
activity feed, ping and Etherscan tools), with its rules written in Verus and
proved.

- `src/` is the verified library. `models/blog.rs` holds the blog post types and
  their conversions; `routes/` holds the rules of each group of endpoints
  (paging and filtering, the admin key check, what create/update/delete write,
  the dashboard assembly, the event descriptions, the host sanitizer, the
  Etherscan input checks, transaction lookup and address analysis);
  `config.rs` and `db.rs` read the environment's values; `text.rs` holds the
  text operations (parsing and rendering integers, prefix trimming, pattern
  removal) with the meaning std gives them; `json.rs` holds the calls into
  `serde_json`.
- `app/` is the server around it: axum routing, SQLite through sqlx, HTTP calls
  through reqwest, the `ping` process, and the floating-point parts of the
  address analysis.
- `tests/` runs the library on concrete values.
