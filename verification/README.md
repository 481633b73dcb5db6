# authz_worker

A Cloudflare Worker that stores relationship tuples
(`object_type:object_id#relation@subject_type:subject_id`, with an optional
condition) in a D1 table and answers authorization checks over them.

- `src/` is the verified library (Verus):
  - `tuple` — tuples, keys, filters, request bodies and table rows;
  - `sql` — every statement the worker runs, with its bound values;
  - `store` — batch-write plans, the meaning of the statements on the table
    (with the laws of a batch write, read-your-write, delete and the selects),
    and the lookup of a tuple under the first of several relations;
  - `query` — the filter and key named by a query string, decoded by
    `form_urlencoded`;
  - `http` — routing, the tuple debugging route, and replies;
  - `check` — the steps of the `/check` endpoint around the engine, in order;
  - `log` — structured log records;
  - `json` — JSON values and objects of serde_json.
- `app/` is the Worker itself: the entry point, JSON encoding and decoding,
  the D1 binding, and the console.
- `tests/` exercises the library.
