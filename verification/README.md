# live_compiler

Verified evaluation of live-design expressions.

A live document is a flat vector of nodes; an expression is stored in prefix order
after an `Expr` node. `live_eval_value` evaluates the expression that starts at a
node: literals, animation arrays (their last keyframe), names looked up in the
scope's root table (possibly in another loaded file), unary and binary operators,
and the built-in functions `pow`, `blend`, `mix` and `hsvmod`.

Layout:

- `src/` — the library, verified with Verus. Floating-point values are carried as
  terms over bit patterns (`terms`), so every decision of the evaluator is proved;
  `ops` states what each operator gives, `live_eval` the evaluation itself and its
  contract, `laws` properties that hold of all inputs.
- `app/` — ordinary Rust: carries out the IEEE arithmetic that terms describe and
  renders error messages.
- `tests/` — tests of the library on concrete documents.
