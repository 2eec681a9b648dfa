# lua_rewrite

Rewriting of Lua syntax trees, verified with Verus:

- `equivalent`: structural equivalence of expressions and chunks (same shape,
  same token texts);
- `replace`: replacement of every expression equivalent to a given source by
  a given target;
- `simplify`: simplification of boolean logic (`true or x`, `not false`,
  `if false then ... end`, ...).

Layout:

- `src/ast.rs`: the executable syntax tree; `src/model.rs`: its mathematical
  model, which every contract is stated over.
- `src/equivalent.rs`, `src/replace.rs`, `src/simplify.rs`: the three
  rewritings, each with its specification and its verified implementation.
- `src/*_laws.rs`: properties of the three rewritings, proved.
- `app/lib.rs`: conversion of trees parsed by `full_moon` into the library's
  tree, and entry points on `full_moon` trees.
- `tests/`: tests of the library.
