# query_format

Pieces of a SQL query engine's planner and output path, with their
behaviour stated as contracts and proved:

- `format`: how plans are explained. `scalar` gives the text of scalar
  expressions, `label` the label of each operator, `lines` the lines shown
  below an operator, and `tree` turns an expression tree into a tree of
  labelled nodes whose texts are stated by `sexpr_tree`.
- `csv`: CSV output of a block of rows and of the header lines of a
  schema, with a reader written as spec functions and proofs that records
  of quoted fields read back as their values.
- `binder`: how a statement is bound (a plan at once, a rewrite to a query
  over a system table, or a hand-over), and the binding of derived columns.
- `distributed`: putting a merge exchange on top of a plan that does not
  deliver its rows to one node.
- `statistics`: the statistics recorded for a written block.
- `plans`: the plan model that the modules above share.
- `text`: strings, decimal numbers and separated lists.

The tests under `tests/` run the library on concrete plans, blocks and
statements. `app/` drives the library: it binds statements step by step,
writes CSV output through an output-format trait, and finishes distributed
plans and block statistics from what other parts of the engine compute.
