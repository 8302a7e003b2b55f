# naga_wgsl

The error reporting of a WGSL front end, with its contracts proved: the errors
that parsing and lowering WGSL source can produce, their wording as reports
(a message, labelled source spans and notes), their one-line descriptions,
the line/column positions of spans, and their rendering as terminal
diagnostics through `codespan-reporting`.

Layout:

- `src/span.rs` — byte spans, their text in the source and their line/column location.
- `src/types.rs`, `src/error.rs` — the error values and the `ParseError` report.
- `src/report.rs` — the wording of each error as a report.
- `src/display.rs`, `src/debug.rs`, `src/words.rs`, `src/text.rs` — descriptions and the text they are built from.
- `src/parse_error.rs`, `src/render.rs` — what a report exposes and how it is rendered.
- `src/frontend.rs` — the front end's options and result.
- `src/laws.rs` — properties that span several functions.
- `app/` — writing to standard error, paths, `Display`/`Error` impls and a snapshot helper.
