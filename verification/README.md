# redmine_wrapper

A typed client for the Redmine REST API whose request and response logic is
verified with Verus.

## Layout

- `src/` — the verified library:
  - `config.rs` — the client configuration and its builder (trailing slashes
    of the base URL, defaults, the checks `build` makes);
  - `errors.rs` — error categories and their status codes, the error type,
    its messages;
  - `http/client.rs` — URLs with their form-encoded queries, authentication
    headers, what a response status and body turn into (the body read as
    JSON through `serde_json`), resource paths;
  - `http/pagination.rs` — page queries and the walk through every page of a
    listing;
  - `http/rate_limiter.rs` — the sliding window that keeps requests under a
    rate, as a state machine over timestamps;
  - `utils/query.rs` — a filter document flattened into query pairs;
  - `resources/` — for each operation of each resource, the request it sends;
  - `json.rs`, `text.rs`, `types/` — the JSON model and its parse, decimal
    text, and the records the API exchanges.
- `app/` — the blocking HTTP transport, the serde forms of the records, and
  the resource objects that send the requests the library describes.
- `tests/` — tests of the library on concrete values.
