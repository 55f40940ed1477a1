# pgrx runtime core for the pgrust target

`src/` is the verified library: the decisions the pgrx runtime makes when it
runs on pgrust, each with a contract proved by Verus.

- `port`: transaction-id comparison, `TYPEALIGN`/`MAXALIGN`, version strings.
- `mem`: the per-thread memory-context state behind `palloc`, `pfree`,
  `repalloc` and the context globals; chunk layout; `pstrdup`/`pnstrdup`.
- `stringinfo`: growable NUL-terminated buffers.
- `varlena`, `tuples`, `htup`: datum headers, detoast decisions, array
  element counts, tuple-descriptor image layout, name conversions.
- `error`: backend errors and pgrx error reports, both directions.
- `fmgr`, `srf`, `finfo`: call-frame sizing, set-returning rows, and the
  symbols a wrapped function is registered under.
- `guc`: custom-variable bookkeeping and reads.
- `registry`, `control`: finding wrappers, schema sections, `_PG_init`
  functions, control-file values and install scripts.
- `spi`: status codes, prepared statements, cursors, tuple tables and rows.
- `magic`, `encoding`: the module magic block and encoding compatibility.

`app/` holds what stays outside the proofs: the C-layout views, thread-local
and process-wide state, and every call into the pgrust backend crates. It
passes plain values to the library and acts on what comes back.

`tests/` exercises the library on concrete values.
