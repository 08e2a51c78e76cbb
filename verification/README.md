# structopt_derive attribute rules

The part of a command-line-parser derive macro that reads `#[structopt(...)]`
attributes and doc comments, written in Verus with its rules as contracts.

- `src/` — the verified library: attribute application (`attrs`), casing
  (`casing`), parsers (`parser`), doc-comment help text (`doc`), author lists
  (`author`), character-sequence helpers (`text`), spans and token streams
  (`tokens`), errors (`error`) and the laws that hold for every input (`laws`).
- `app/` — the macro's side: converts `syn` values, reads the package metadata
  from the environment, emits tokens with `quote`, and reports errors with
  `proc-macro-error`.
- `tests/` — tests on concrete values.
