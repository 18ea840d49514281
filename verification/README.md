# estranged

A verified model of a client library for the MAX bot platform API.

- `src/` is the library, checked by Verus: identifiers and their decimal text,
  the API's enumerations and their names, an ordered set of update types, the
  webhook secret and its pattern, the secret header, `x-www-form-urlencoded`
  query strings and endpoint URLs, the requests a bot sends, and the state of the
  long-poll loop.
- `app/` holds what does I/O: serde forms of the types, the `reqwest` client that
  sends the requests the library builds, and the `axum` webhook router.
- `tests/` runs the library on concrete values, and compares its URLs and header
  values with the `url` and `http` crates.
