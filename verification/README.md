# glenside

Glenside is a language of tensor programs built on access patterns, made to
be rewritten in e-graphs. This crate holds the language and the e-graph
analysis that infers, for every node of a program, the shape of the tensor or
access pattern it computes, and which regions of an access pattern are known
to hold zeros. The library is written in Verus: every operation carries a
contract, and the laws that tie the operations together are proved.

## Layout

- `src/text.rs`: characters, numbers and float literals as program tokens.
- `src/decimal.rs`: the number a float literal stands for, so that literals
  such as `1.0` and `1.00` compare equal.
- `src/operators.rs`: the leaf operators (Relay operators, layouts, compute
  and pad types) and their names.
- `src/range_set.rs`: sets of index ranges that follow the elements they
  cover when elements are inserted or removed. `RangeHashSet` holds its
  ranges in a `Vec` of distinct pairs rather than a `HashSet<(usize, usize)>`:
  vstd specifies `HashSet` operations only for key types whose hashing it
  models, and pairs are not among them, so a `HashSet` of pairs could not be
  reasoned about without assuming that model.
- `src/data.rs`: the values the analysis attaches to e-classes.
- `src/dims.rs`: dimension lists and checked window arithmetic.
- `src/language.rs`: the nodes of the language and the node table that reads
  an operator and its children as a node.
- `src/tensor_ops.rs`, `src/access_ops.rs`, `src/relay_ops.rs`: what each
  operator gives from the values of its children.
- `src/analysis.rs`: `MyAnalysis::make`, the value of a node that type
  checks (`type_checks`), and `MyAnalysis::try_make`, which also tells a node
  that does not type check.
- `src/merge.rs`: `MyAnalysis::merge`, combining two values of one e-class.
- `src/expr.rs`: programs, read from s-expressions with `egg`, and their
  analysis node by node.
- `src/laws.rs`: properties that span operations.
- `app/lib.rs`: the language as an `egg::Language` and the analysis as an
  `egg::Analysis`, for use in `egg` e-graphs.
- `tests/`: tests of programs, range sets and the laws on concrete values.
