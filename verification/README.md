# postflop_solver

The game-tree interfaces of a postflop poker solver, as a verified Verus library.

- `src/interface.rs`: the `Game` and `GameNode` traits with the clauses that the
  solver relies on (actions numbered `0..num_actions()`, `set_solved` observed by
  `is_solved`, writes through the compressed mutable views read back by the
  accessors while the other compressed array stays as it was, the swap lists
  of `isomorphic_swap`, and the default answers of the provided methods).
- `app/lib.rs`: the floating-point side of both traits (reach probabilities,
  counterfactual values, `f32` regrets, strategies and scales), as extension
  traits over the verified ones.
- `tests/`: a small game and node in plain Rust that run the default methods
  and check, on concrete values, the behaviour the clauses describe; they cannot
  observe the spec models of the traits.
