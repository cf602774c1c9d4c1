# Doc extractor

A verified library that reads a Rust crate's syntax tree and its cleaned
documentation tree and writes what they hold as text:

- `text`, `utils`, `render`: one-line renderings of paths, imports, items and
  types, each with an exact contract over a spec function of the text.
- `extract`: the indented listing of a crate's public API (structs, enums,
  functions, modules, type aliases, statics, traits, impls, imports), with
  laws on what is and is not listed and that the listing is whole lines.
- `ast`, `clean`, `doctree`, `context`: models of the syntax tree, of the
  cleaned tree, of the documentation tree and of the compiler's resolution
  tables.
- `visitor`: the collector that walks a crate into a documentation tree,
  inlining what public imports of private items name; `walk_laws`,
  `import_laws` and `walk_check` state what every walk keeps, which imports
  stay, and when a walk can be made.

`app/` is the program around it: it runs the compiler's front end, converts
its trees into the library's models, and prints.
