# subsonic_types

Types of the Subsonic API, verified with Verus: the requests a client sends
(and their encoding as URL query strings), the common value types they carry,
and the plain records and errors of responses.

## Layout

- `src/` — the verified library.
  - `text.rs`, `percent.rs` — characters, decimal numbers, and the
    percent-encoding of query components.
  - `query.rs` — query strings as lists of pairs: writing (`QueryBuilderString`,
    `to_query_string`) and reading (`parse_query`, `QueryIter`), with the law
    that reading back what was written gives the same pairs.
  - `codec.rs`, `roundtrip.rs` — a request type is described by a schema of
    fields; fields are written as pairs and read back from them, and
    `lemma_fields_roundtrip` proves that the two agree.
  - `request/` — the `SubsonicRequest` trait, `Request<R>` with its
    credentials, every request type of the API, a query-map reader
    (`request::query`) and an event-driven query writer
    (`request::query::ser`).
  - `common.rs` — milliseconds, video sizes and bitrates, audio bitrates,
    ratings, versions, formats.
  - `response.rs` — response status, error codes and errors, and the plain
    response records.
  - `attrs/`, `obj.rs`, `deser.rs` — field naming (camelCase), attribute
    lists, encoding constraints, and the reading of XML text as values.
- `tests/` — tests of the library.
- `app/` — serde forms of the value types, and the types that hold floats or
  dates (`AverageRating`, `DateTime`, and a `JukeboxControl` whose gain is an
  `f32`).
