# yatima

Terms of a small dependently typed core language, and their encoding as
symbolic expressions, verified with Verus.

- `src/sexpr.rs`: symbolic expressions (atoms and lists, with optional
  source positions) and their mathematical views.
- `src/uses.rs`, `src/literal.rs`, `src/primop.rs`: multiplicities,
  literals, literal types and primitive operations, each with its encoding as
  an atom and its decoding.
- `src/context.rs`: the context of bound names, held in an `im::Vector`.
- `src/term.rs`: terms; `Term::encode`, `Term::decode` and equality up to
  source positions, each specified by `spec_encode`, `spec_decode` and `erase`.
- `src/roundtrip.rs`: the laws relating decoding and encoding.
