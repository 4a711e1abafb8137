# tomllib

The syntax tree of a TOML document that keeps every piece of whitespace,
every newline and every comment of the text it was read from, so that
rendering a tree gives that text back.

- `src/ast/structs.rs`: the nodes, and when two of them are equal (`==`).
  Strings compare by their text, whatever their quotes.
- `src/ast/render.rs`: writing a node back as text (`fmt`, `to_string`), and
  which trees can be written (`can_render`, `is_renderable`).
- `src/ast/compare.rs`: `comp_opt`, equality of optional nodes.
- `src/ast/laws.rs`: proofs that equality is an equivalence and that equal
  trees render alike where their strings share quotes.
- `src/types.rs`: dates, times and offsets.
- `src/text.rs`: equality of string slices.
- `app/lib.rs`: `Display` for the result of a parse, which needs the parser
  crate's result type.

Every function under `src/` is verified with Verus against its contract, but
`str_eq` in `src/text.rs`, whose body calls std's string equality and whose
contract states what std documents of it.
