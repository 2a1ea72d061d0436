# perlmod_export

Expansion of Rust functions that are exported to Perl.

Given the syntax of a function and what its export attribute says, the library writes the code that
Perl calls: an entry point, and a function behind it that takes the arguments off Perl's stack,
deserializes them, calls the exported function and returns what it returned. It also derives the
function's Perl prototype, and reports functions that cannot be exported.

The functions in `src/` are verified with Verus. Contracts speak of the tokens that are written,
each with its place in the source text. What `ident` and `tokens` state of the calls into
`unicode-ident`, `proc-macro2`, `quote` and `syn` is trusted and not proved: each such item names
the outside function and says what is claimed of it.

- `ident`, `tokens`, `words`, `fragments`: identifiers, token streams and how they are written
- `syntax`: the parts of a function's syntax that the export reads
- `types`: recognition of `Result` and `Option`
- `argument`, `parameters`: attributes of parameters, and the code that passes arguments
- `return_kind`: return values and entry points
- `prototype`: Perl prototypes
- `function`: the expansion as a whole
- `error`: reports
- `list`: a record that is passed as one value or as a list
- `decimal`: decimal notation

`app/` holds the conversion from and to the syntax trees of `syn`, and the deserialization of Perl
values. The dependencies on `anyhow` and `serde` serve `app/` alone.
